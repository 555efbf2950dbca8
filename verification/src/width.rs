//! How many columns a character takes on the grid.

use vstd::prelude::*;

verus! {

/// What `unicode_width::UnicodeWidthChar::width` returns for `c`: the number
/// of columns the character is displayed in, or `None` for a control
/// character.
pub uninterp spec fn display_width(c: char) -> Option<usize>;

/// Whether `c` is a printable ASCII character, U+0020 to U+007E.
pub open spec fn is_printable_ascii(c: char) -> bool {
    ' ' <= c && c <= '~'
}

/// The number of columns that `c` takes on the grid. A character without a
/// display width takes none.
pub open spec fn glyph_width(c: char) -> nat {
    if is_printable_ascii(c) {
        1
    } else {
        match display_width(c) {
            Some(w) => w as nat,
            None => 0,
        }
    }
}

/// Calls `unicode_width::UnicodeWidthChar::width` on `c`.
///
/// Trusted: the result is the width that the Unicode tables of that crate
/// give, a function of the character alone, and every printable ASCII
/// character is one column wide.
#[verifier::external_body]
pub(crate) fn char_width(c: char) -> (w: Option<usize>)
    ensures
        w == display_width(c),
        is_printable_ascii(c) ==> w == Some(1usize),
{
    unicode_width::UnicodeWidthChar::width(c)
}

} // verus!
