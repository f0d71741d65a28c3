//! Flappy Dragon: a dragon falls under gravity, flaps upward on demand, and
//! must pass through the gaps of walls that scroll toward it.
//!
//! The crate is the whole game as a state machine over plain values. A caller
//! owns the window, the clock and the keyboard; once per frame it hands
//! [`state::State::tick`] the elapsed milliseconds and the key that is down,
//! and gets back the frame to draw.

pub mod glyph;
pub mod obstacle;
pub mod palette;
pub mod player;
pub mod random;
pub mod screen;
pub mod state;
pub mod text;
