//! Blank texts: those that hold nothing but white space.

use vstd::prelude::*;
use vstd::string::*;

verus! {

/// Whether a character has the Unicode `White_Space` property.
///
/// The property is defined by the Unicode Character Database; this crate
/// does not restate the table and learns its value for a given character
/// only from [`is_whitespace`].
pub uninterp spec fn white_space(c: char) -> bool;

/// Calls `char::is_whitespace` of the standard library.
///
/// Trusted: the result is the `White_Space` property of `c`, which is what
/// the standard library documents for the method.
#[verifier::external_body]
pub(crate) fn is_whitespace(c: char) -> (b: bool)
    ensures
        b == white_space(c),
{
    c.is_whitespace()
}

/// A text is blank when it holds nothing but white space; the empty text is
/// blank.
pub open spec fn blank(s: Seq<char>) -> bool {
    forall|i: int| 0 <= i < s.len() ==> white_space(#[trigger] s[i])
}

/// Decides whether `s` is empty or made of white space only, that is,
/// whether trimming it would leave nothing.
pub fn is_blank(s: &str) -> (b: bool)
    ensures
        b == blank(s@),
{
    let n = s.unicode_len();
    let mut i: usize = 0;
    while i < n
        invariant
            n == s@.len(),
            i <= n,
            forall|j: int| 0 <= j < i ==> white_space(#[trigger] s@[j]),
        decreases n - i,
    {
        if !is_whitespace(s.get_char(i)) {
            return false;
        }
        i += 1;
    }
    true
}

} // verus!
