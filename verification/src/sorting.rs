//! Alphabetical order of version labels.
//!
//! Labels are ordered as Rust orders strings: byte by byte over their UTF-8
//! encoding, a proper prefix before any of its extensions.

use crate::text::texts;
use vstd::prelude::*;
use vstd::seq_lib::{to_multiset_build, to_multiset_contains, to_multiset_insert};
use vstd::utf8::encode_utf8;

verus! {

/// Whether `a` comes before `b`, or equals it, in lexicographic byte order.
pub open spec fn bytes_le(a: Seq<u8>, b: Seq<u8>) -> bool
    decreases a.len(),
{
    if a.len() == 0 {
        true
    } else if b.len() == 0 {
        false
    } else if a[0] == b[0] {
        bytes_le(a.skip(1), b.skip(1))
    } else {
        a[0] < b[0]
    }
}

/// Whether text `a` comes before text `b`, or equals it.
pub open spec fn text_le(a: Seq<char>, b: Seq<char>) -> bool {
    bytes_le(encode_utf8(a), encode_utf8(b))
}

/// Whether a sequence of texts is in ascending order.
pub open spec fn ascending(texts: Seq<Seq<char>>) -> bool {
    forall|i: int, j: int| 0 <= i < j < texts.len() ==> text_le(texts[i], texts[j])
}

/// Of any two byte strings, one comes before the other or equals it.
pub proof fn lemma_bytes_le_total(a: Seq<u8>, b: Seq<u8>)
    ensures
        bytes_le(a, b) || bytes_le(b, a),
    decreases a.len(),
{
    if a.len() > 0 && b.len() > 0 && a[0] == b[0] {
        lemma_bytes_le_total(a.skip(1), b.skip(1));
    }
}

/// The order is transitive.
pub proof fn lemma_bytes_le_transitive(a: Seq<u8>, b: Seq<u8>, c: Seq<u8>)
    requires
        bytes_le(a, b),
        bytes_le(b, c),
    ensures
        bytes_le(a, c),
    decreases a.len(),
{
    if a.len() > 0 && b.len() > 0 && c.len() > 0 && a[0] == b[0] && b[0] == c[0] {
        lemma_bytes_le_transitive(a.skip(1), b.skip(1), c.skip(1));
    }
}

/// Whether `a` comes before `b`, or equals it, in lexicographic byte order.
pub fn bytes_precede(a: &[u8], b: &[u8]) -> (r: bool)
    ensures
        r == bytes_le(a@, b@),
{
    let mut i: usize = 0;
    proof {
        assert(a@.skip(0) =~= a@);
        assert(b@.skip(0) =~= b@);
    }
    while i < a.len() && i < b.len()
        invariant
            i <= a.len(),
            i <= b.len(),
            bytes_le(a@, b@) == bytes_le(a@.skip(i as int), b@.skip(i as int)),
        decreases a.len() - i,
    {
        proof {
            assert(a@.skip(i as int)[0] == a@[i as int]);
            assert(b@.skip(i as int)[0] == b@[i as int]);
            assert(a@.skip(i as int).skip(1) =~= a@.skip(i + 1));
            assert(b@.skip(i as int).skip(1) =~= b@.skip(i + 1));
        }
        if a[i] != b[i] {
            return a[i] < b[i];
        }
        i += 1;
    }
    i == a.len()
}

/// The same labels in ascending order.
pub fn sort_labels(labels: &Vec<String>) -> (r: Vec<String>)
    ensures
        ascending(texts(r@)),
        texts(r@).to_multiset() == texts(labels@).to_multiset(),
{
    let mut out: Vec<String> = Vec::new();
    let mut i: usize = 0;
    proof {
        assert(texts(labels@.take(0)) =~= texts(out@));
    }
    while i < labels.len()
        invariant
            i <= labels.len(),
            ascending(texts(out@)),
            texts(out@).to_multiset() == texts(labels@.take(i as int)).to_multiset(),
        decreases labels.len() - i,
    {
        let x = labels[i].clone();
        let mut p: usize = 0;
        while p < out.len() && bytes_precede(out[p].as_str().as_bytes(), x.as_str().as_bytes())
            invariant
                p <= out.len(),
                forall|j: int| 0 <= j < p ==> text_le(#[trigger] texts(out@)[j], x@),
            decreases out.len() - p,
        {
            p += 1;
        }
        let ghost before = texts(out@);
        proof {
            if p < out.len() {
                lemma_bytes_le_total(encode_utf8(before[p as int]), encode_utf8(x@));
            }
        }
        out.insert(p, x);
        proof {
            let after = texts(out@);
            assert(after =~= before.insert(p as int, x@));
            assert forall|a: int, b: int| 0 <= a < b < after.len() implies text_le(
                after[a],
                after[b],
            ) by {
                if b < p {
                } else if b == p {
                } else if a == p {
                    if b - 1 > p {
                        assert(text_le(before[p as int], before[b - 1]));
                        lemma_bytes_le_transitive(
                            encode_utf8(x@),
                            encode_utf8(before[p as int]),
                            encode_utf8(before[b - 1]),
                        );
                    }
                } else if a < p {
                    assert(after[a] == before[a]);
                    assert(after[b] == before[b - 1]);
                } else {
                    assert(after[a] == before[a - 1]);
                    assert(after[b] == before[b - 1]);
                }
            }
            to_multiset_insert(before, p as int, x@);
            assert(texts(labels@.take(i + 1)) =~= texts(labels@.take(i as int)).push(x@));
            to_multiset_build(texts(labels@.take(i as int)), x@);
        }
        i += 1;
    }
    proof {
        assert(labels@.take(labels.len() as int) =~= labels@);
    }
    out
}

/// A rearrangement of a sequence without repetitions has no repetitions
/// either, and holds the same elements.
pub proof fn lemma_rearranged<A>(a: Seq<A>, b: Seq<A>)
    requires
        a.to_multiset() == b.to_multiset(),
        a.no_duplicates(),
    ensures
        b.no_duplicates(),
        forall|x: A| a.contains(x) <==> b.contains(x),
{
    a.lemma_multiset_has_no_duplicates();
    b.lemma_multiset_has_no_duplicates_conv();
    assert forall|x: A| a.contains(x) <==> b.contains(x) by {
        to_multiset_contains(a, x);
        to_multiset_contains(b, x);
    }
}

} // verus!
