//! Byte-level text helpers: decimal rendering and whitespace analysis.
//!
//! All request bodies and command-output checks in this crate work on ASCII
//! bytes, so the specifications here are stated over `Seq<u8>`.

use vstd::prelude::*;

verus! {

use vstd::utf8::{decode_utf8, valid_utf8};

/// Relies on String::from_utf8: Ok exactly when the bytes are a valid UTF-8
/// encoding, and then the string is their decoding.
#[verifier::external_body]
pub(crate) fn utf8_to_string(bytes: Vec<u8>) -> (r: Option<String>)
    ensures
        r is Some <==> valid_utf8(bytes@),
        r matches Some(s) ==> s@ == decode_utf8(bytes@),
{
    match String::from_utf8(bytes) {
        Ok(s) => Some(s),
        Err(_) => None,
    }
}

/// The decimal digit characters of `n`, as ASCII bytes, most significant digit first.
pub open spec fn dec_digits(n: nat) -> Seq<u8>
    decreases n,
{
    if n < 10 {
        seq![(0x30 + n) as u8]
    } else {
        dec_digits(n / 10) + seq![(0x30 + (n % 10)) as u8]
    }
}

/// Appends the decimal representation of `n` to `out`.
pub fn push_dec_u64(out: &mut Vec<u8>, n: u64)
    ensures
        final(out)@ == old(out)@ + dec_digits(n as nat),
    decreases n,
{
    if n < 10 {
        out.push(0x30 + (n as u8));
        assert(out@ =~= old(out)@ + dec_digits(n as nat));
    } else {
        push_dec_u64(out, n / 10);
        out.push(0x30 + ((n % 10) as u8));
        assert(out@ =~= old(out)@ + dec_digits(n as nat));
    }
}

/// ASCII whitespace in the sense of `str::trim`: space, tab, line feed,
/// carriage return (the forms that git's output actually contains).
pub open spec fn is_ascii_ws(b: u8) -> bool {
    b == 0x20 || b == 0x09 || b == 0x0a || b == 0x0d
}

/// A byte string is blank when every byte is whitespace, i.e. it trims to "".
pub open spec fn is_blank(s: Seq<u8>) -> bool {
    forall|i: int| 0 <= i < s.len() ==> is_ascii_ws(s[i])
}

fn byte_is_ws(b: u8) -> (r: bool)
    ensures
        r == is_ascii_ws(b),
{
    b == 0x20 || b == 0x09 || b == 0x0a || b == 0x0d
}

/// True iff `s` trims to the empty string.
pub fn bytes_blank(s: &[u8]) -> (r: bool)
    ensures
        r == is_blank(s@),
{
    let len = s.len();
    let mut i: usize = 0;
    while i < len
        invariant
            0 <= i <= len,
            len == s@.len(),
            forall|j: int| 0 <= j < i ==> is_ascii_ws(s@[j]),
        decreases len - i,
    {
        if !byte_is_ws(s[i]) {
            return false;
        }
        i += 1;
    }
    true
}

/// The trimmed form of `s` spans more than one line: a line feed lies strictly
/// between two non-whitespace bytes.
pub open spec fn has_multiple_lines(s: Seq<u8>) -> bool {
    exists|p: int, n: int, q: int|
        0 <= p < n < q < s.len() && !is_ascii_ws(s[p]) && s[n] == 0x0a && !is_ascii_ws(s[q])
}

/// True iff the trimmed form of `s` contains an interior line feed, i.e.
/// `s.trim().lines().count() > 1`.
pub fn bytes_have_multiple_lines(s: &[u8]) -> (r: bool)
    ensures
        r == has_multiple_lines(s@),
{
    let len = s.len();

    // first non-whitespace byte
    let mut start: usize = 0;
    while start < len && byte_is_ws(s[start])
        invariant
            0 <= start <= len,
            len == s@.len(),
            forall|j: int| 0 <= j < start ==> is_ascii_ws(s@[j]),
        decreases len - start,
    {
        start += 1;
    }
    if start == len {
        return false;
    }

    // last non-whitespace byte
    let mut end: usize = len - 1;
    while end > start && byte_is_ws(s[end])
        invariant
            start <= end < len,
            len == s@.len(),
            forall|j: int| end < j < len ==> is_ascii_ws(s@[j]),
        decreases end,
    {
        end -= 1;
    }

    // a line feed strictly between them?
    let mut i: usize = start + 1;
    while i < end
        invariant
            start < i <= end || (start + 1 > end && i == start + 1),
            end < len == s@.len(),
            !is_ascii_ws(s@[start as int]),
            !is_ascii_ws(s@[end as int]),
            forall|j: int| 0 <= j < start ==> is_ascii_ws(s@[j]),
            forall|j: int| end < j < len ==> is_ascii_ws(s@[j]),
            forall|j: int| start < j < i ==> s@[j] != 0x0a,
        decreases end - i,
    {
        if s[i] == 0x0a {
            assert(has_multiple_lines(s@));
            return true;
        }
        i += 1;
    }

    proof {
        // Any witness (p, n, q) would place a line feed strictly between the
        // first and last non-whitespace bytes, which the scan ruled out.
        assert forall|p: int, n: int, q: int|
            0 <= p < n < q < s@.len() && !is_ascii_ws(s@[p]) && !is_ascii_ws(
                s@[q],
            ) implies s@[n] != 0x0a by {
            assert(p >= start);
            assert(q <= end);
        }
    }
    false
}

} // verus!
