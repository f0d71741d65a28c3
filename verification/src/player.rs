//! The dragon: where it is and how fast it falls.

use vstd::prelude::*;
use crate::glyph::{ascii_glyph, to_cp437};
use crate::palette::{black, black_rgb, yellow, yellow_rgb};
use crate::screen::Draw;

verus! {

/// How many units of velocity make one row per physics step: velocity is
/// counted in fifths of a row.
pub const VELOCITY_SCALE: i32 = 5;

/// What gravity adds to the velocity in one physics step: one fifth of a row.
pub const GRAVITY: i32 = 1;

/// The velocity from which gravity adds nothing more: two rows per step.
pub const TERMINAL_VELOCITY: i32 = 10;

/// The velocity right after a flap: two rows per step, upward.
pub const FLAP_VELOCITY: i32 = -10;

/// The character that stands for the dragon.
pub const PLAYER_SYMBOL: char = '@';

/// The velocity one physics step after `v`: gravity pulls until the velocity
/// has reached the terminal velocity, and no further.
pub open spec fn next_velocity(v: int) -> int {
    if v < TERMINAL_VELOCITY {
        v + GRAVITY
    } else {
        v
    }
}

/// The whole rows that velocity `v` covers in one step: `v` fifths with the
/// fraction dropped, so rounded toward zero.
pub open spec fn whole_rows(v: int) -> int {
    if v >= 0 {
        v / (VELOCITY_SCALE as int)
    } else {
        -((-v) / (VELOCITY_SCALE as int))
    }
}

/// The dragon. `x` and `y` are its column and row in the world; rows grow
/// downward. `velocity` is its vertical speed in fifths of a row per physics
/// step, positive when it falls.
#[derive(Clone, Copy, Debug, PartialEq, Eq, Structural)]
pub struct Player {
    pub x: i32,
    pub y: i32,
    pub velocity: i32,
}

impl Player {
    /// Whether the velocity is one that play can reach: no faster upward than
    /// a flap gives, no faster downward than gravity can make it.
    pub open spec fn wf(self) -> bool {
        FLAP_VELOCITY <= self.velocity <= TERMINAL_VELOCITY
    }

    /// The row after one physics step: the old row plus the whole rows of the
    /// new velocity, but never above the top of the screen.
    pub open spec fn next_y(self) -> int {
        let y = self.y + whole_rows(next_velocity(self.velocity as int));
        if y < 0 {
            0
        } else {
            y
        }
    }

    /// Whether the column and row after one physics step fit their type.
    pub open spec fn can_move(self) -> bool {
        self.x < i32::MAX && self.next_y() <= i32::MAX
    }

    /// The dragon one physics step later. Meant for `self.can_move()`.
    pub open spec fn moved(self) -> Player {
        Player {
            x: (self.x + 1) as i32,
            y: self.next_y() as i32,
            velocity: next_velocity(self.velocity as int) as i32,
        }
    }

    /// The dragon right after a flap.
    pub open spec fn flapped(self) -> Player {
        Player { x: self.x, y: self.y, velocity: FLAP_VELOCITY }
    }

    /// The dragon `n` physics steps later, with no flap in between.
    pub open spec fn moved_times(self, n: nat) -> Player
        decreases n,
    {
        if n == 0 {
            self
        } else {
            self.moved_times((n - 1) as nat).moved()
        }
    }

    /// The cell that shows the dragon: always in the leftmost column, at its
    /// own row, yellow on black.
    pub open spec fn sprite(self) -> Draw {
        Draw::Cell {
            x: 0,
            y: self.y,
            fg: yellow_rgb(),
            bg: black_rgb(),
            glyph: ascii_glyph(PLAYER_SYMBOL),
        }
    }

    /// A dragon at rest at column `x`, row `y`.
    pub fn new(x: i32, y: i32) -> (player: Self)
        ensures
            player == (Player { x, y, velocity: 0 }),
            player.wf(),
    {
        Player { x, y, velocity: 0 }
    }

    /// The request that draws the dragon.
    pub fn render(&self) -> (draw: Draw)
        ensures
            draw == self.sprite(),
    {
        Draw::Cell { x: 0, y: self.y, fg: yellow(), bg: black(), glyph: to_cp437(PLAYER_SYMBOL) }
    }

    /// Whether a physics step can be made: the exact test of `can_move`.
    pub(crate) fn move_fits(&self) -> (fits: bool)
        ensures
            fits == self.can_move(),
    {
        let velocity: i64 = if self.velocity < TERMINAL_VELOCITY {
            self.velocity as i64 + GRAVITY as i64
        } else {
            self.velocity as i64
        };
        let row: i64 = self.y as i64 + velocity / (VELOCITY_SCALE as i64);
        self.x < i32::MAX && row <= i32::MAX as i64
    }

    /// One physics step: gravity acts on the velocity, the dragon falls or
    /// rises by the whole rows of its new velocity and moves one column to the
    /// right. A dragon that would leave the screen at the top stays in row 0
    /// and keeps its velocity.
    pub fn gravity_and_move(&mut self)
        requires
            old(self).can_move(),
        ensures
            *final(self) == old(self).moved(),
            final(self).velocity == next_velocity(old(self).velocity as int),
            final(self).x == old(self).x + 1,
            final(self).y == old(self).next_y(),
            final(self).y >= 0,
            old(self).wf() ==> final(self).wf(),
    {
        if self.velocity < TERMINAL_VELOCITY {
            self.velocity = self.velocity + GRAVITY;
        }
        let fall: i64 = (self.velocity / VELOCITY_SCALE) as i64;
        let row: i64 = self.y as i64 + fall;
        self.y = if row < 0 { 0 } else { row as i32 };
        self.x = self.x + 1;
    }

    /// A flap: the velocity becomes two rows per step upward, whatever it
    /// was. The position does not change.
    pub fn flap(&mut self)
        ensures
            *final(self) == old(self).flapped(),
            final(self).velocity == FLAP_VELOCITY,
            final(self).x == old(self).x,
            final(self).y == old(self).y,
            final(self).wf(),
    {
        self.velocity = FLAP_VELOCITY;
    }
}

/// Without a flap, each physics step adds exactly one fifth of a row to a
/// velocity below the terminal velocity, until the terminal velocity is
/// reached; from then on the velocity stays exactly there.
pub proof fn lemma_velocity_climbs_then_holds(player: Player, n: nat)
    requires
        player.velocity <= TERMINAL_VELOCITY,
    ensures
        player.moved_times(n).velocity == if player.velocity + GRAVITY * n <= TERMINAL_VELOCITY {
            player.velocity + GRAVITY * n
        } else {
            TERMINAL_VELOCITY as int
        },
    decreases n,
{
    if n > 0 {
        lemma_velocity_climbs_then_holds(player, (n - 1) as nat);
    }
}

/// A dragon that starts at rest gains one fifth of a row per step for ten
/// steps, and then falls at exactly two rows per step for good.
pub proof fn lemma_velocity_from_rest(player: Player, n: nat)
    requires
        player.velocity == 0,
    ensures
        n <= 10 ==> player.moved_times(n).velocity == n,
        n >= 10 ==> player.moved_times(n).velocity == TERMINAL_VELOCITY,
        n >= 1 && n <= 10 ==> player.moved_times(n).velocity == player.moved_times(
            (n - 1) as nat,
        ).velocity + GRAVITY,
{
    lemma_velocity_climbs_then_holds(player, n);
    if n >= 1 {
        lemma_velocity_climbs_then_holds(player, (n - 1) as nat);
    }
}

/// However often the dragon has moved, it is not above the top of the screen
/// after a physics step.
pub proof fn lemma_never_above_the_top(player: Player, n: nat)
    requires
        n >= 1,
        player.moved_times((n - 1) as nat).can_move(),
    ensures
        player.moved_times(n).y >= 0,
{
}

} // verus!
