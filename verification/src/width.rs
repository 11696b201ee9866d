//! Display widths of terminal text, from the `unicode-width` crate.

use unicode_width::{UnicodeWidthChar, UnicodeWidthStr};
use vstd::prelude::*;

verus! {

/// The column width that `UnicodeWidthStr::width` gives a string.
pub uninterp spec fn str_width(s: Seq<char>) -> usize;

/// The column width that `UnicodeWidthChar::width` gives a character
/// (`None` for control characters).
pub uninterp spec fn char_width(c: char) -> Option<usize>;

/// Display width of `text` in terminal columns (`UnicodeWidthStr::width`).
///
/// Trusted: the result is the crate's width of the characters of `text`, a function of
/// those characters alone; its tables are not restated here.
#[verifier::external_body]
pub fn display_width(text: &str) -> (res: usize)
    ensures
        res == str_width(text@),
{
    UnicodeWidthStr::width(text)
}

/// Display width of one character (`UnicodeWidthChar::width`).
///
/// Trusted: the result is the crate's width of `c`, a function of `c` alone.
#[verifier::external_body]
pub fn char_display_width(c: char) -> (res: Option<usize>)
    ensures
        res == char_width(c),
{
    UnicodeWidthChar::width(c)
}

} // verus!
