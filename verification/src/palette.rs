//! The four colours of the game, taken from bracket-lib's named colours.

use vstd::prelude::*;

verus! {

/// Red, green and blue parts of a colour.
pub type Rgb = (u8, u8, u8);

/// The colour of the dragon.
pub open spec fn yellow_rgb() -> Rgb {
    (255u8, 255u8, 0u8)
}

/// The colour behind every glyph.
pub open spec fn black_rgb() -> Rgb {
    (0u8, 0u8, 0u8)
}

/// The colour of the walls.
pub open spec fn red_rgb() -> Rgb {
    (255u8, 0u8, 0u8)
}

/// The colour of the sky while the game is played.
pub open spec fn navy_rgb() -> Rgb {
    (0u8, 0u8, 128u8)
}

/// bracket-lib's constant `YELLOW`. Trusted: that it is full red, full green
/// and no blue.
#[verifier::external_body]
pub(crate) fn yellow() -> (c: Rgb)
    ensures
        c == yellow_rgb(),
{
    bracket_lib::prelude::YELLOW
}

/// bracket-lib's constant `BLACK`. Trusted: that all three parts are zero.
#[verifier::external_body]
pub(crate) fn black() -> (c: Rgb)
    ensures
        c == black_rgb(),
{
    bracket_lib::prelude::BLACK
}

/// bracket-lib's constant `RED`. Trusted: that it is full red and nothing
/// else.
#[verifier::external_body]
pub(crate) fn red() -> (c: Rgb)
    ensures
        c == red_rgb(),
{
    bracket_lib::prelude::RED
}

/// bracket-lib's constant `NAVY`. Trusted: that it is blue at 128 and nothing
/// else.
#[verifier::external_body]
pub(crate) fn navy() -> (c: Rgb)
    ensures
        c == navy_rgb(),
{
    bracket_lib::prelude::NAVY
}

} // verus!
