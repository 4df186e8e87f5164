//! Small text helpers that the path layout and the version marker share.

use vstd::prelude::*;
use vstd::utf8::{decode_utf8, encode_utf8, encode_utf8_decode_utf8, valid_utf8};

verus! {

/// Whether a character has the Unicode `White_Space` property.
pub uninterp spec fn white_space(c: char) -> bool;

/// `char::is_whitespace` of the standard library: whether the character has
/// the Unicode `White_Space` property. The contract only gives that answer a
/// name; which characters those are is not stated.
#[verifier::external_body]
fn is_whitespace(c: char) -> (r: bool)
    ensures
        r == white_space(c),
{
    c.is_whitespace()
}

/// Number of leading characters that are white space.
pub open spec fn leading_space(s: Seq<char>) -> nat
    decreases s.len(),
{
    if s.len() > 0 && white_space(s[0]) {
        1 + leading_space(s.skip(1))
    } else {
        0
    }
}

/// Number of trailing characters that are white space.
pub open spec fn trailing_space(s: Seq<char>) -> nat
    decreases s.len(),
{
    if s.len() > 0 && white_space(s.last()) {
        1 + trailing_space(s.drop_last())
    } else {
        0
    }
}

/// The text without its leading and trailing white space.
pub open spec fn trimmed(s: Seq<char>) -> Seq<char> {
    let start = leading_space(s);
    let rest = s.skip(start as int);
    rest.take(rest.len() - trailing_space(rest))
}

/// A text that neither starts nor ends with white space is its own trimmed
/// form.
pub proof fn lemma_trimmed_is_identity(s: Seq<char>)
    requires
        s.len() > 0 ==> !white_space(s[0]) && !white_space(s.last()),
    ensures
        trimmed(s) == s,
{
    assert(s.skip(0) =~= s);
    assert(s.take(s.len() as int) =~= s);
}

/// The text without its leading and trailing white space.
pub fn trim(s: &str) -> (r: String)
    ensures
        r@ == trimmed(s@),
{
    let n = s.unicode_len();
    let mut start: usize = 0;
    proof {
        assert(s@.skip(0) =~= s@);
    }
    while start < n && is_whitespace(s.get_char(start))
        invariant
            start <= n,
            n == s@.len(),
            leading_space(s@) == start + leading_space(s@.skip(start as int)),
        decreases n - start,
    {
        proof {
            assert(s@.skip(start as int)[0] == s@[start as int]);
            assert(s@.skip(start as int).skip(1) =~= s@.skip(start + 1));
        }
        start += 1;
    }
    proof {
        if start < n {
            assert(s@.skip(start as int)[0] == s@[start as int]);
        }
    }
    let ghost rest = s@.skip(start as int);
    let mut end: usize = n;
    proof {
        assert(rest.take(rest.len() as int) =~= rest);
    }
    while end > start && is_whitespace(s.get_char(end - 1))
        invariant
            start <= end <= n,
            n == s@.len(),
            rest == s@.skip(start as int),
            trailing_space(rest) == (n - end) + trailing_space(rest.take(end - start)),
        decreases end,
    {
        proof {
            let cur = rest.take(end - start);
            assert(cur.last() == s@[end - 1]);
            assert(cur.drop_last() =~= rest.take(end - 1 - start));
        }
        end -= 1;
    }
    proof {
        let cur = rest.take(end - start);
        if end > start {
            assert(cur.last() == s@[end - 1]);
        }
        assert(trailing_space(cur) == 0);
        assert(s@.subrange(start as int, end as int) =~= rest.take(rest.len() - trailing_space(rest)));
    }
    String::from_str(s.substring_char(start, end))
}

/// Whether two strings hold the same text.
pub fn same_text(a: &str, b: &str) -> (r: bool)
    ensures
        r == (a@ == b@),
{
    let x = a.as_bytes();
    let y = b.as_bytes();
    proof {
        encode_utf8_decode_utf8(a@);
        encode_utf8_decode_utf8(b@);
    }
    if x.len() != y.len() {
        return false;
    }
    let mut i: usize = 0;
    while i < x.len()
        invariant
            i <= x.len(),
            x.len() == y.len(),
            x@ == encode_utf8(a@),
            y@ == encode_utf8(b@),
            forall|j: int| 0 <= j < i ==> x@[j] == y@[j],
        decreases x.len() - i,
    {
        if x[i] != y[i] {
            return false;
        }
        i += 1;
    }
    assert(x@ =~= y@);
    true
}

/// The character that stands for a digit.
pub open spec fn digit_char(d: nat) -> char {
    if d == 0 {
        '0'
    } else if d == 1 {
        '1'
    } else if d == 2 {
        '2'
    } else if d == 3 {
        '3'
    } else if d == 4 {
        '4'
    } else if d == 5 {
        '5'
    } else if d == 6 {
        '6'
    } else if d == 7 {
        '7'
    } else if d == 8 {
        '8'
    } else {
        '9'
    }
}

/// A number written in base ten, without leading zeros.
pub open spec fn decimal_text(n: nat) -> Seq<char>
    decreases n,
{
    if n < 10 {
        seq![digit_char(n)]
    } else {
        decimal_text(n / 10).push(digit_char(n % 10))
    }
}

fn digit_str(d: u64) -> (r: &'static str)
    requires
        d < 10,
    ensures
        r@ == seq![digit_char(d as nat)],
{
    proof {
        reveal_strlit("0");
        reveal_strlit("1");
        reveal_strlit("2");
        reveal_strlit("3");
        reveal_strlit("4");
        reveal_strlit("5");
        reveal_strlit("6");
        reveal_strlit("7");
        reveal_strlit("8");
        reveal_strlit("9");
    }
    let r = if d == 0 {
        "0"
    } else if d == 1 {
        "1"
    } else if d == 2 {
        "2"
    } else if d == 3 {
        "3"
    } else if d == 4 {
        "4"
    } else if d == 5 {
        "5"
    } else if d == 6 {
        "6"
    } else if d == 7 {
        "7"
    } else if d == 8 {
        "8"
    } else {
        "9"
    };
    assert(r@ =~= seq![digit_char(d as nat)]);
    r
}

/// Write a number in base ten.
pub fn decimal(n: u64) -> (r: String)
    ensures
        r@ == decimal_text(n as nat),
    decreases n,
{
    if n < 10 {
        String::from_str(digit_str(n))
    } else {
        let mut r = decimal(n / 10);
        r.append(digit_str(n % 10));
        assert(r@ =~= decimal_text((n / 10) as nat).push(digit_char((n % 10) as nat)));
        r
    }
}

/// The text of an optional string.
pub open spec fn opt_text(s: Option<String>) -> Option<Seq<char>> {
    match s {
        Some(text) => Some(text@),
        None => None,
    }
}

/// The texts that a sequence of strings holds.
pub open spec fn texts(v: Seq<String>) -> Seq<Seq<char>> {
    v.map_values(|s: String| s@)
}

/// The text without its trailing white space.
pub open spec fn trimmed_end(s: Seq<char>) -> Seq<char> {
    s.take(s.len() - trailing_space(s))
}

/// The text without its trailing white space.
pub fn trim_end(s: &str) -> (r: String)
    ensures
        r@ == trimmed_end(s@),
{
    let n = s.unicode_len();
    let mut end: usize = n;
    proof {
        assert(s@.take(n as int) =~= s@);
    }
    while end > 0 && is_whitespace(s.get_char(end - 1))
        invariant
            end <= n,
            n == s@.len(),
            trailing_space(s@) == (n - end) + trailing_space(s@.take(end as int)),
        decreases end,
    {
        proof {
            let cur = s@.take(end as int);
            assert(cur.last() == s@[end - 1]);
            assert(cur.drop_last() =~= s@.take(end - 1));
        }
        end -= 1;
    }
    proof {
        let cur = s@.take(end as int);
        if end > 0 {
            assert(cur.last() == s@[end - 1]);
        }
        assert(trailing_space(cur) == 0);
        assert(s@.subrange(0, end as int) =~= s@.take(end as int));
    }
    String::from_str(s.substring_char(0, end))
}

/// Whether `part` stands in `whole` from position `at` on.
pub open spec fn occurs_at(whole: Seq<u8>, part: Seq<u8>, at: int) -> bool {
    0 <= at && at + part.len() <= whole.len() && whole.subrange(at, at + part.len()) == part
}

/// Whether a byte string ends with another.
pub open spec fn is_suffix(whole: Seq<u8>, part: Seq<u8>) -> bool {
    part.len() <= whole.len() && occurs_at(whole, part, whole.len() - part.len())
}

/// Whether a text ends with another, compared by their UTF-8 bytes.
pub open spec fn text_ends_with(whole: Seq<char>, part: Seq<char>) -> bool {
    is_suffix(encode_utf8(whole), encode_utf8(part))
}

/// Whether a text holds another somewhere, compared by their UTF-8 bytes.
pub open spec fn text_contains(whole: Seq<char>, part: Seq<char>) -> bool {
    exists|at: int| occurs_at(encode_utf8(whole), encode_utf8(part), at)
}

fn matches_at(whole: &[u8], part: &[u8], at: usize) -> (r: bool)
    requires
        at + part.len() <= whole.len(),
    ensures
        r == occurs_at(whole@, part@, at as int),
{
    let mut i: usize = 0;
    while i < part.len()
        invariant
            i <= part.len(),
            at + part.len() <= whole.len(),
            forall|j: int| 0 <= j < i ==> whole@[at + j] == part@[j],
        decreases part.len() - i,
    {
        if whole[at + i] != part[i] {
            assert(whole@.subrange(at as int, at + part.len())[i as int] != part@[i as int]);
            return false;
        }
        i += 1;
    }
    assert(whole@.subrange(at as int, at + part.len()) =~= part@);
    true
}

/// Whether a text ends with another.
pub fn ends_with(whole: &str, part: &str) -> (r: bool)
    ensures
        r == text_ends_with(whole@, part@),
{
    let w = whole.as_bytes();
    let p = part.as_bytes();
    if p.len() > w.len() {
        return false;
    }
    matches_at(w, p, w.len() - p.len())
}

/// Whether a text holds another somewhere.
pub fn contains(whole: &str, part: &str) -> (r: bool)
    ensures
        r == text_contains(whole@, part@),
{
    let w = whole.as_bytes();
    let p = part.as_bytes();
    if p.len() > w.len() {
        return false;
    }
    let last: usize = w.len() - p.len();
    let mut at: usize = 0;
    loop
        invariant
            at <= last,
            last == w.len() - p.len(),
            p.len() <= w.len(),
            w@ == encode_utf8(whole@),
            p@ == encode_utf8(part@),
            forall|j: int| 0 <= j < at ==> !occurs_at(w@, p@, j),
        decreases last - at,
    {
        if matches_at(w, p, at) {
            return true;
        }
        if at == last {
            return false;
        }
        at += 1;
    }
}

/// `String::from_utf8` of the standard library: the text that the bytes
/// encode, if they are valid UTF-8, and nothing if they are not.
#[verifier::external_body]
pub(crate) fn utf8_text(bytes: Vec<u8>) -> (r: Option<String>)
    ensures
        match r {
            Some(text) => valid_utf8(bytes@) && text@ == decode_utf8(bytes@),
            None => !valid_utf8(bytes@),
        },
{
    String::from_utf8(bytes).ok()
}

/// A text with one more line.
pub open spec fn line(acc: Seq<char>, text: Seq<char>) -> Seq<char> {
    acc + text + "\n"@
}

/// A text with one more line, made of a caption and a value.
pub open spec fn field(acc: Seq<char>, caption: Seq<char>, value: Seq<char>) -> Seq<char> {
    acc + caption + value + "\n"@
}

/// Add a line to a text.
pub fn push_line(acc: &mut String, text: &str)
    ensures
        final(acc)@ == line(old(acc)@, text@),
{
    acc.append(text);
    acc.append("\n");
}

/// Add a line to a text, made of a caption and a value.
pub fn push_field(acc: &mut String, caption: &str, value: &str)
    ensures
        final(acc)@ == field(old(acc)@, caption@, value@),
{
    acc.append(caption);
    acc.append(value);
    acc.append("\n");
}

} // verus!
