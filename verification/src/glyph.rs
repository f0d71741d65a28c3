//! Glyph numbers of the code page 437 font that the screen is drawn in.

use vstd::prelude::*;

verus! {

/// Whether `c` is a printable ASCII character, from the space to the tilde.
pub open spec fn printable_ascii(c: char) -> bool {
    32 <= c as u32 <= 126
}

/// The glyph of a printable ASCII character: its own code.
pub open spec fn ascii_glyph(c: char) -> u16
    recommends
        printable_ascii(c),
{
    c as u32 as u16
}

/// bracket-lib's `to_cp437`, on printable ASCII only. Trusted: that the font
/// holds each such character at its own code.
#[verifier::external_body]
pub(crate) fn to_cp437(c: char) -> (g: u16)
    requires
        printable_ascii(c),
    ensures
        g == ascii_glyph(c),
{
    bracket_lib::prelude::to_cp437(c)
}

} // verus!
