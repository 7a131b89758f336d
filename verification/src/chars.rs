//! Character classification taken from the standard library.

use vstd::prelude::*;

verus! {

/// Whether `c` is a whitespace character, as `char::is_whitespace` decides it
/// (the Unicode `White_Space` property).
pub uninterp spec fn is_whitespace(c: char) -> bool;

/// The whitespace below U+0080: U+0009 to U+000D and the space.
pub open spec fn ascii_white_space(c: char) -> bool {
    c == ' ' || ('\x09' <= c && c <= '\x0d')
}

/// Calls `char::is_whitespace`.
///
/// Trusted: the answer is taken to depend on the character alone, and is
/// named [`is_whitespace`]. Below U+0080 the characters that qualify are
/// stated: U+0009 to U+000D and the space. Of the others nothing is claimed.
#[verifier::external_body]
pub(crate) fn char_is_whitespace(c: char) -> (b: bool)
    ensures
        b == is_whitespace(c),
        c < '\u{80}' ==> b == ascii_white_space(c),
{
    c.is_whitespace()
}

} // verus!
