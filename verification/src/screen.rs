//! What the game asks of the screen and the keyboard, as plain values.

use vstd::prelude::*;
use crate::palette::Rgb;

verus! {

/// Width of the screen, in columns.
pub const SCREEN_WIDTH: i32 = 80;

/// Height of the screen, in rows.
pub const SCREEN_HEIGHT: i32 = 50;

/// The key that is down during a frame, as far as the game tells keys apart.
#[derive(Clone, Copy, Debug, PartialEq, Eq, Structural)]
pub enum Key {
    /// Starts a game from the menu or from the end screen.
    P,
    /// Leaves the program from the menu or from the end screen.
    Q,
    /// Makes the dragon flap.
    Space,
    /// Any key the game has no use for.
    Other,
}

/// A line of text that the game shows.
#[derive(Clone, Copy, Debug, PartialEq, Eq)]
pub enum Message {
    /// The title on the menu.
    Welcome,
    /// How to start a game.
    PlayOption,
    /// How to leave.
    QuitOption,
    /// How to flap, shown while playing.
    FlapHint,
    /// The score so far, shown while playing.
    Score(i32),
    /// The heading of the end screen.
    Dead,
    /// The final score on the end screen.
    Earned(i32),
}

/// One request to the screen.
#[derive(Clone, Copy, Debug, PartialEq, Eq)]
pub enum Draw {
    /// Clear the whole screen.
    Clear,
    /// Clear the whole screen to a background colour.
    ClearTo { background: Rgb },
    /// Put one glyph into the cell at column `x`, row `y`.
    Cell { x: i32, y: i32, fg: Rgb, bg: Rgb, glyph: u16 },
    /// Print a line starting at column `x` of row `y`.
    Print { x: i32, y: i32, message: Message },
    /// Print a line centred in row `y`.
    PrintCentered { y: i32, message: Message },
}

/// What one tick asks of its caller: requests to the screen, in order, and
/// whether to leave the program.
#[derive(Debug, PartialEq, Eq)]
pub struct Frame {
    pub draws: Vec<Draw>,
    pub quit: bool,
}

} // verus!
