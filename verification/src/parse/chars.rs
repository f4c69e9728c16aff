//! Character classes of the source alphabet.
use vstd::prelude::*;

verus! {

/// An ASCII letter.
pub open spec fn is_alphabetic(c: char) -> bool {
    ('a' <= c && c <= 'z') || ('A' <= c && c <= 'Z')
}

/// An ASCII decimal digit.
pub open spec fn is_digit(c: char) -> bool {
    '0' <= c && c <= '9'
}

/// A character that may continue an identifier: letter, digit or underscore.
pub open spec fn is_identifier_part(c: char) -> bool {
    is_alphabetic(c) || is_digit(c) || c == '_'
}

/// Insignificant whitespace: space and carriage return.
pub open spec fn is_blank(c: char) -> bool {
    c == ' ' || c == '\r'
}

/// Decides whether `c` is an ASCII letter.
pub fn alphabetic(c: char) -> (r: bool)
    ensures
        r == is_alphabetic(c),
{
    ('a' <= c && c <= 'z') || ('A' <= c && c <= 'Z')
}

/// Decides whether `c` is an ASCII decimal digit.
pub fn digit(c: char) -> (r: bool)
    ensures
        r == is_digit(c),
{
    '0' <= c && c <= '9'
}

/// Decides whether `c` may continue an identifier.
pub fn identifier_part(c: char) -> (r: bool)
    ensures
        r == is_identifier_part(c),
{
    alphabetic(c) || digit(c) || c == '_'
}

/// Decides whether `c` is insignificant whitespace.
pub fn blank(c: char) -> (r: bool)
    ensures
        r == is_blank(c),
{
    c == ' ' || c == '\r'
}

} // verus!
