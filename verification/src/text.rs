//! Text helpers: byte lengths and the decoding of the trial id carried in a
//! verdict message.

use vstd::prelude::*;
use vstd::string::StrSliceExecFns;
use vstd::utf8::{decode_utf8, valid_utf8};
use crate::state::byte_len;

verus! {

/// What `String::from_utf8_lossy` makes of a byte sequence.
pub uninterp spec fn utf8_lossy(bytes: Seq<u8>) -> Seq<char>;

/// The text with every leading `'\0'` removed.
pub open spec fn strip_leading_nul(s: Seq<char>) -> Seq<char>
    decreases s.len(),
{
    if s.len() > 0 && s[0] == '\0' {
        strip_leading_nul(s.drop_first())
    } else {
        s
    }
}

/// The text with every trailing `'\0'` removed.
pub open spec fn strip_trailing_nul(s: Seq<char>) -> Seq<char>
    decreases s.len(),
{
    if s.len() > 0 && s.last() == '\0' {
        strip_trailing_nul(s.drop_last())
    } else {
        s
    }
}

/// The text with every leading and trailing `'\0'` removed.
pub open spec fn trim_nul(s: Seq<char>) -> Seq<char> {
    strip_trailing_nul(strip_leading_nul(s))
}

/// The trial id that a 32-byte, NUL-padded id field names.
pub open spec fn field_trial_id(field: Seq<u8>) -> Seq<char> {
    trim_nul(utf8_lossy(field))
}

/// The number of bytes of the UTF-8 encoding of a text.
pub fn text_byte_len(s: &String) -> (n: usize)
    ensures
        n == byte_len(s@),
{
    s.as_str().as_bytes().len()
}

/// Calls `String::from_utf8_lossy`, which decodes bytes as UTF-8 and puts
/// U+FFFD in place of each invalid sequence. Claimed: the result is
/// `utf8_lossy` of the bytes, and on valid UTF-8 it is the plain decoding.
/// Of invalid input nothing more is said.
#[verifier::external_body]
pub(crate) fn from_utf8_lossy(bytes: &[u8]) -> (s: String)
    ensures
        s@ == utf8_lossy(bytes@),
        valid_utf8(bytes@) ==> s@ == decode_utf8(bytes@),
{
    String::from_utf8_lossy(bytes).into_owned()
}

/// The text with every leading and trailing NUL character removed.
pub fn trim_nul_text(s: &str) -> (t: String)
    ensures
        t@ == trim_nul(s@),
{
    let n = s.unicode_len();
    let ghost text = s@;
    let mut start: usize = 0;
    assert(text.subrange(0, n as int) =~= text);
    while start < n && s.get_char(start) == '\0'
        invariant
            text == s@,
            n == text.len(),
            start <= n,
            strip_leading_nul(text) == strip_leading_nul(text.subrange(start as int, n as int)),
        decreases n - start,
    {
        assert(text.subrange(start as int, n as int)[0] == text[start as int]);
        assert(text.subrange(start as int, n as int).drop_first() =~= text.subrange(
            start + 1,
            n as int,
        ));
        start = start + 1;
    }
    let ghost rest = text.subrange(start as int, n as int);
    assert(strip_leading_nul(text) == rest) by {
        if start < n {
            assert(rest[0] == text[start as int]);
        }
    }
    let mut end: usize = n;
    while end > start && s.get_char(end - 1) == '\0'
        invariant
            text == s@,
            n == text.len(),
            start <= end <= n,
            rest == text.subrange(start as int, n as int),
            strip_trailing_nul(rest) == strip_trailing_nul(text.subrange(start as int, end as int)),
        decreases end - start,
    {
        assert(text.subrange(start as int, end as int).last() == text[end - 1]);
        assert(text.subrange(start as int, end as int).drop_last() =~= text.subrange(
            start as int,
            end - 1,
        ));
        end = end - 1;
    }
    assert(strip_trailing_nul(rest) == text.subrange(start as int, end as int)) by {
        if start < end {
            assert(text.subrange(start as int, end as int).last() == text[end - 1]);
        }
    }
    s.substring_char(start, end).to_owned()
}

/// Decodes a NUL-padded trial id field: lossy UTF-8 decoding, then every
/// leading and trailing NUL removed.
pub fn decode_trial_id(field: &[u8]) -> (id: String)
    ensures
        id@ == field_trial_id(field@),
        valid_utf8(field@) ==> id@ == trim_nul(decode_utf8(field@)),
{
    let decoded = from_utf8_lossy(field);
    trim_nul_text(decoded.as_str())
}

} // verus!
