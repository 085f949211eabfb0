//! Small operations on text that the rest of the library is built from.

use vstd::prelude::*;
use vstd::string::*;

verus! {

/// `s` without a leading `0x`; `s` itself where it has none.
pub open spec fn without_hex_prefix(s: Seq<char>) -> Seq<char> {
    if s.len() >= 2 && s[0] == '0' && s[1] == 'x' {
        s.subrange(2, s.len() as int)
    } else {
        s
    }
}

/// Whether two pieces of text hold the same characters.
pub fn same_text(a: &str, b: &str) -> (same: bool)
    ensures
        same == (a@ == b@),
{
    let left = a.to_owned();
    let right = b.to_owned();
    left == right
}

/// The text of `head` followed by the text of `tail`.
pub fn append(head: &str, tail: &str) -> (out: String)
    ensures
        out@ == head@ + tail@,
{
    head.to_owned().concat(tail)
}

/// Drops a leading `0x` from `s`, if there is one.
pub fn strip_hex_prefix(s: &str) -> (rest: &str)
    ensures
        rest@ == without_hex_prefix(s@),
{
    let n = s.unicode_len();
    if n >= 2 && s.get_char(0) == '0' && s.get_char(1) == 'x' {
        s.substring_char(2, n)
    } else {
        s
    }
}

} // verus!
