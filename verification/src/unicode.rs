//! Display width of characters, from the `unicode-width` crate.
use vstd::prelude::*;

use unicode_width::UnicodeWidthChar;

verus! {

/// The width that `UnicodeWidthChar::width` of `unicode-width` gives a
/// character: `None` for control characters, else the number of terminal
/// columns (UAX #11, ambiguous characters narrow).
pub uninterp spec fn unicode_char_width(c: char) -> Option<usize>;

/// Calls `<char as unicode_width::UnicodeWidthChar>::width`. Its result is
/// named by `unicode_char_width`; the crate's source (`lookup.rs`) shows that
/// characters below U+0020 and from U+007F below U+00A0 give `None`, printable
/// ASCII gives `Some(1)`, and every other character some width of at most 3.
#[verifier::external_body]
fn char_width_of(c: char) -> (w: Option<usize>)
    ensures
        w == unicode_char_width(c),
        w == None::<usize> <== (c as u32) < 0x20,
        w == Some(1usize) <== 0x20 <= (c as u32) < 0x7f,
        w == None::<usize> <== 0x7f <= (c as u32) < 0xa0,
        (w is Some && w->0 <= 3) <== 0xa0 <= (c as u32),
{
    UnicodeWidthChar::width(c)
}

/// The columns a character takes in the composer: its Unicode width, but at
/// least one column (control and zero-width characters take one). Below
/// U+00A0 that is one column for every character: control characters have
/// no width and printable ASCII is one column wide.
pub open spec fn cell_width(c: char) -> nat {
    if (c as u32) < 0xa0 {
        1
    } else {
        match unicode_char_width(c) {
            Some(w) if w >= 1 => w as nat,
            _ => 1,
        }
    }
}

/// The columns `c` takes: at least one, at most three; one below U+00A0.
pub fn cell_width_of(c: char) -> (w: usize)
    ensures
        w == cell_width(c),
        1 <= w <= 3,
        (c as u32) < 0xa0 ==> w == 1,
{
    match char_width_of(c) {
        Some(w) => if w >= 1 { w } else { 1 },
        None => 1,
    }
}

} // verus!
