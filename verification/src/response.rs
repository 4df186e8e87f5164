//! The part of an HTTP response that the library reads: the status code and
//! the header lines, with header values as the bytes that came over the wire.

use vstd::prelude::*;
use vstd::utf8::encode_utf8;

verus! {

/// One header line.
pub struct Header {
    /// Field name, in any letter case.
    pub name: String,
    /// Field value, as received.
    pub value: Vec<u8>,
}

/// Status and headers of one response.
pub struct ResponseHead {
    pub status: u16,
    pub headers: Vec<Header>,
}

/// Whether a byte is an ASCII decimal digit.
pub open spec fn is_digit(b: u8) -> bool {
    48 <= b <= 57
}

/// The number that a digit stands for; zero for any other byte.
pub open spec fn digit_value(b: u8) -> nat {
    if is_digit(b) {
        (b - 48) as nat
    } else {
        0
    }
}

/// Whether every byte is a decimal digit.
pub open spec fn all_digits(s: Seq<u8>) -> bool {
    forall|i: int| 0 <= i < s.len() ==> is_digit(#[trigger] s[i])
}

/// The number that a run of digits denotes in base ten.
pub open spec fn decimal_value(s: Seq<u8>) -> nat
    decreases s.len(),
{
    if s.len() == 0 {
        0
    } else {
        decimal_value(s.drop_last()) * 10 + digit_value(s.last())
    }
}

/// The text without one leading plus sign.
pub open spec fn without_plus(s: Seq<u8>) -> Seq<u8> {
    if s.len() > 0 && s[0] == 43 {
        s.skip(1)
    } else {
        s
    }
}

/// The unsigned 64-bit integer that a text denotes: an optional plus sign
/// followed by one or more decimal digits and nothing else, with a value that
/// fits. Leading zeros are allowed.
pub open spec fn parse_decimal_u64(s: Seq<u8>) -> Option<u64> {
    let digits = without_plus(s);
    if digits.len() > 0 && all_digits(digits) && decimal_value(digits) <= u64::MAX {
        Some(decimal_value(digits) as u64)
    } else {
        None
    }
}

/// A byte with ASCII capitals folded to small letters.
pub open spec fn ascii_lower(b: u8) -> u8 {
    if 65 <= b <= 90 {
        (b + 32) as u8
    } else {
        b
    }
}

/// Whether two field names are the same up to ASCII letter case.
pub open spec fn same_field_name(a: Seq<u8>, b: Seq<u8>) -> bool {
    a.len() == b.len() && forall|i: int|
        0 <= i < a.len() ==> ascii_lower(#[trigger] a[i]) == ascii_lower(b[i])
}

/// The value of the first header with the given field name.
pub open spec fn first_value(headers: Seq<Header>, name: Seq<char>) -> Option<Seq<u8>>
    decreases headers.len(),
{
    if headers.len() == 0 {
        None
    } else if same_field_name(encode_utf8(headers[0].name@), encode_utf8(name)) {
        Some(headers[0].value@)
    } else {
        first_value(headers.skip(1), name)
    }
}

/// The integer carried by the first header with the given field name.
pub open spec fn header_number(headers: Seq<Header>, name: Seq<char>) -> Option<u64> {
    match first_value(headers, name) {
        Some(value) => parse_decimal_u64(value),
        None => None,
    }
}

proof fn lemma_decimal_prefix(s: Seq<u8>, k: int)
    requires
        0 <= k <= s.len(),
    ensures
        decimal_value(s.take(k)) <= decimal_value(s),
    decreases s.len(),
{
    if k == s.len() {
        assert(s.take(k) =~= s);
    } else {
        assert(s.take(k) =~= s.drop_last().take(k));
        lemma_decimal_prefix(s.drop_last(), k);
    }
}

proof fn lemma_decimal_step(s: Seq<u8>, k: int)
    requires
        0 <= k < s.len(),
    ensures
        decimal_value(s.take(k + 1)) == decimal_value(s.take(k)) * 10 + digit_value(s[k]),
{
    assert(s.take(k + 1).drop_last() =~= s.take(k));
}

/// Read an unsigned decimal integer.
pub fn parse_u64(bytes: &[u8]) -> (r: Option<u64>)
    ensures
        r == parse_decimal_u64(bytes@),
{
    let n = bytes.len();
    let start: usize = if n > 0 && bytes[0] == 43 {
        1
    } else {
        0
    };
    if start == n {
        return None;
    }
    let ghost digits = without_plus(bytes@);
    assert(digits =~= bytes@.skip(start as int));
    assert(digits.take(0) =~= Seq::<u8>::empty());
    let mut acc: u64 = 0;
    let mut i: usize = start;
    while i < n
        invariant
            start <= i <= n,
            n == bytes.len(),
            digits == bytes@.skip(start as int),
            digits == without_plus(bytes@),
            all_digits(digits.take(i - start)),
            acc == decimal_value(digits.take(i - start)),
        decreases n - i,
    {
        let b = bytes[i];
        proof {
            lemma_decimal_step(digits, i - start);
            lemma_decimal_prefix(digits, i - start + 1);
        }
        assert(digits[i - start] == b);
        if b < 48 || b > 57 {
            assert(!is_digit(digits[i - start]));
            return None;
        }
        assert(digit_value(b) == b - 48);
        let d: u64 = (b - 48) as u64;
        let shifted = match acc.checked_mul(10) {
            Some(v) => v,
            None => {
                return None;
            },
        };
        let next = match shifted.checked_add(d) {
            Some(v) => v,
            None => {
                return None;
            },
        };
        assert(all_digits(digits.take(i - start + 1))) by {
            assert forall|j: int| 0 <= j < i - start + 1 implies is_digit(
                #[trigger] digits.take(i - start + 1)[j],
            ) by {
                if j < i - start {
                    assert(digits.take(i - start)[j] == digits[j]);
                }
            }
        }
        acc = next;
        i += 1;
    }
    assert(digits.take(n - start) =~= digits);
    Some(acc)
}

/// Whether two field names are the same up to ASCII letter case.
pub fn field_names_match(a: &[u8], b: &[u8]) -> (r: bool)
    ensures
        r == same_field_name(a@, b@),
{
    if a.len() != b.len() {
        return false;
    }
    let mut i: usize = 0;
    while i < a.len()
        invariant
            a.len() == b.len(),
            i <= a.len(),
            forall|j: int| 0 <= j < i ==> ascii_lower(#[trigger] a@[j]) == ascii_lower(b@[j]),
        decreases a.len() - i,
    {
        let x = a[i];
        let y = b[i];
        let lx: u8 = if 65 <= x && x <= 90 {
            x + 32
        } else {
            x
        };
        let ly: u8 = if 65 <= y && y <= 90 {
            y + 32
        } else {
            y
        };
        if lx != ly {
            assert(ascii_lower(a@[i as int]) != ascii_lower(b@[i as int]));
            return false;
        }
        i += 1;
    }
    true
}

impl ResponseHead {
    /// The value of the first header with the given field name, compared
    /// without regard to ASCII letter case.
    pub fn header(&self, name: &str) -> (r: Option<&Vec<u8>>)
        ensures
            match r {
                Some(value) => first_value(self.headers@, name@) == Some(value@),
                None => first_value(self.headers@, name@) is None,
            },
    {
        let wanted = name.as_bytes();
        let mut i: usize = 0;
        assert(self.headers@.skip(0) =~= self.headers@);
        while i < self.headers.len()
            invariant
                i <= self.headers.len(),
                wanted@ == encode_utf8(name@),
                first_value(self.headers@, name@) == first_value(self.headers@.skip(i as int), name@),
            decreases self.headers.len() - i,
        {
            let h = &self.headers[i];
            let ghost rest = self.headers@.skip(i as int);
            assert(rest[0] == self.headers@[i as int]);
            assert(rest.skip(1) =~= self.headers@.skip(i + 1));
            if field_names_match(h.name.as_str().as_bytes(), wanted) {
                return Some(&h.value);
            }
            i += 1;
        }
        None
    }

    /// The unsigned integer carried by the first header with the given field
    /// name. A header that is absent, or whose value is not an integer that
    /// fits, gives nothing.
    pub fn header_u64(&self, name: &str) -> (r: Option<u64>)
        ensures
            r == header_number(self.headers@, name@),
    {
        match self.header(name) {
            Some(value) => parse_u64(value.as_slice()),
            None => None,
        }
    }
}

} // verus!
