//! Blank-text detection, the rule behind every "cannot be empty" check.

use vstd::prelude::*;

verus! {

/// The Unicode `White_Space` property of a character, as `char::is_whitespace`
/// reports it.
pub uninterp spec fn unicode_white_space(c: char) -> bool;

/// Calls `char::is_whitespace`. Its documentation says that it answers whether
/// the character has the Unicode `White_Space` property; the contract names that
/// answer and states the examples the documentation gives (space, line feed and
/// no-break space are whitespace, the ideograph U+8D8A is not). The full
/// property table is left unstated.
#[verifier::external_body]
fn char_is_whitespace(c: char) -> (r: bool)
    ensures
        r == unicode_white_space(c),
        c == ' ' ==> r,
        c == '\n' ==> r,
        c == '\u{a0}' ==> r,
        c == '\u{8d8a}' ==> !r,
{
    c.is_whitespace()
}

/// A text is blank when every character in it is whitespace; this is exactly
/// when trimming it leaves nothing, since `str::trim` removes characters with
/// the same `White_Space` property.
pub open spec fn is_blank(s: Seq<char>) -> bool {
    forall|i: int| 0 <= i < s.len() ==> unicode_white_space(#[trigger] s[i])
}

/// Answers whether `s` is empty once leading and trailing whitespace is trimmed.
/// A text made only of spaces, line feeds and no-break spaces is blank; one
/// that holds the ideograph U+8D8A is not.
pub fn is_blank_str(s: &str) -> (r: bool)
    ensures
        r == is_blank(s@),
        s@.len() == 0 ==> r,
        (forall|i: int| 0 <= i < s@.len() ==> #[trigger] s@[i] == ' ' || s@[i] == '\n' || s@[i] == '\u{a0}') ==> r,
        (exists|i: int| 0 <= i < s@.len() && #[trigger] s@[i] == '\u{8d8a}') ==> !r,
{
    for c in it: s.chars()
        invariant
            it.seq() == s@,
            forall|j: int| 0 <= j < it.index() ==> unicode_white_space(#[trigger] s@[j]),
            forall|j: int| 0 <= j < it.index() ==> #[trigger] s@[j] != '\u{8d8a}',
    {
        if !char_is_whitespace(c) {
            return false;
        }
    }
    true
}

} // verus!
