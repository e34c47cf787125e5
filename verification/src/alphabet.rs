//! The alphanumeric alphabet `[A-Za-z0-9]`, shared by request identifiers and
//! padding: every symbol of it can stand unescaped in a JSON string and in an
//! HTTP header value.

use vstd::prelude::*;

verus! {

/// Whether `c` is an ASCII letter or digit.
pub open spec fn is_alphanumeric(c: char) -> bool {
    ('0' <= c && c <= '9') || ('a' <= c && c <= 'z') || ('A' <= c && c <= 'Z')
}

/// Whether every symbol of `s` is an ASCII letter or digit.
pub open spec fn all_alphanumeric(s: Seq<char>) -> bool {
    forall|i: int| 0 <= i < s.len() ==> is_alphanumeric(#[trigger] s[i])
}

/// Whether the byte `b` is the ASCII code of a letter or digit.
pub open spec fn is_alphanumeric_byte(b: u8) -> bool {
    (0x30 <= b && b <= 0x39) || (0x61 <= b && b <= 0x7a) || (0x41 <= b && b <= 0x5a)
}

/// A byte of the alphabet, read as a character, is a symbol of the alphabet.
pub proof fn lemma_alphanumeric_byte_as_char(b: u8)
    requires
        is_alphanumeric_byte(b),
    ensures
        is_alphanumeric(b as char),
{
}

/// Tells whether `c` is an ASCII letter or digit.
pub fn is_alphanumeric_char(c: char) -> (r: bool)
    ensures
        r == is_alphanumeric(c),
{
    ('0' <= c && c <= '9') || ('a' <= c && c <= 'z') || ('A' <= c && c <= 'Z')
}

} // verus!
