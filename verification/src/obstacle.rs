//! The wall with a gap that the dragon must pass through.

use vstd::prelude::*;
use crate::glyph::{ascii_glyph, to_cp437};
use crate::palette::{black, black_rgb, red, red_rgb};
use crate::player::Player;
use crate::random::range;
use crate::screen::{Draw, SCREEN_HEIGHT};
use bracket_lib::prelude::RandomNumberGenerator;

verus! {

/// The lowest row that the centre of a gap can have.
pub const GAP_ROW_MIN: i32 = 10;

/// The row that the centre of a gap stays above.
pub const GAP_ROW_END: i32 = 40;

/// The height of the gap at score 0.
pub const WIDEST_GAP: i32 = 20;

/// The height that the gap never goes below.
pub const NARROWEST_GAP: i32 = 2;

/// The character that a wall is drawn with.
pub const WALL_SYMBOL: char = '|';

/// The height of the gap at a given score: one row less for every point, down
/// to the narrowest gap.
pub open spec fn gap_size(score: int) -> int {
    if WIDEST_GAP - score > NARROWEST_GAP {
        WIDEST_GAP - score
    } else {
        NARROWEST_GAP as int
    }
}

/// One cell of a wall: red on black.
pub open spec fn wall_cell(x: int, y: int) -> Draw {
    Draw::Cell {
        x: x as i32,
        y: y as i32,
        fg: red_rgb(),
        bg: black_rgb(),
        glyph: ascii_glyph(WALL_SYMBOL),
    }
}

/// The cells of a wall in column `x`, from row `first` up to but not
/// including row `end`, top to bottom. None if `end` is not below `first`.
pub open spec fn wall_cells(x: int, first: int, end: int) -> Seq<Draw> {
    Seq::new(
        if end > first {
            (end - first) as nat
        } else {
            0
        },
        |i: int| wall_cell(x, first + i),
    )
}

/// A wall across the whole height of the screen at world column `x`, open
/// around row `gap_y` over a height of `size`.
#[derive(Clone, Copy, Debug, PartialEq, Eq, Structural)]
pub struct Obstacle {
    pub x: i32,
    pub gap_y: i32,
    pub size: i32,
}

impl Obstacle {
    /// Whether the gap is one that a constructor makes: centred in the rows
    /// meant for it, and no narrower than the narrowest gap.
    pub open spec fn wf(self) -> bool {
        GAP_ROW_MIN <= self.gap_y < GAP_ROW_END && self.size >= NARROWEST_GAP
    }

    /// Half the height of the gap, rounded down.
    pub open spec fn half(self) -> int {
        self.size as int / 2
    }

    /// The row where the upper part of the wall ends: the first row that the
    /// upper part does not cover.
    pub open spec fn upper_end(self) -> int {
        self.gap_y - self.half()
    }

    /// The row where the lower part of the wall starts.
    pub open spec fn lower_start(self) -> int {
        self.gap_y + self.half()
    }

    /// Whether the dragon has run into the wall: it is in the wall's column,
    /// and above the upper end or below the start of the lower part.
    pub open spec fn hits(self, player: Player) -> bool {
        player.x == self.x && (player.y < self.upper_end() || player.y > self.lower_start())
    }

    /// Whether the screen column of the wall and the two rows that bound the
    /// gap fit their type.
    pub open spec fn can_render(self, player_x: i32) -> bool {
        &&& i32::MIN <= self.x - player_x <= i32::MAX
        &&& i32::MIN <= self.upper_end() <= i32::MAX
        &&& i32::MIN <= self.lower_start() <= i32::MAX
    }

    /// The cells of the wall as seen by a dragon in world column `player_x`:
    /// the upper part from row 0 down to the gap, then the lower part from
    /// the gap down to the bottom of the screen, both in the screen column
    /// `x - player_x`.
    pub open spec fn wall(self, player_x: i32) -> Seq<Draw> {
        wall_cells(self.x - player_x, 0, self.upper_end()) + wall_cells(
            self.x - player_x,
            self.lower_start(),
            SCREEN_HEIGHT as int,
        )
    }

    /// The wall at world column `x` whose gap is centred at row `gap_y` and
    /// as high as the score allows.
    pub fn with_gap(x: i32, gap_y: i32, score: i32) -> (obstacle: Self)
        requires
            gap_size(score as int) <= i32::MAX,
        ensures
            obstacle == (Obstacle { x, gap_y, size: gap_size(score as int) as i32 }),
            obstacle.size == gap_size(score as int),
            GAP_ROW_MIN <= gap_y < GAP_ROW_END ==> obstacle.wf(),
    {
        let size: i32 = if score >= WIDEST_GAP - NARROWEST_GAP {
            NARROWEST_GAP
        } else {
            WIDEST_GAP - score
        };
        Obstacle { x, gap_y, size }
    }

    /// A wall at world column `x` with a gap as high as the score allows,
    /// centred at a row drawn at random from a generator made for this one
    /// draw.
    pub fn new(x: i32, score: i32) -> (obstacle: Self)
        requires
            gap_size(score as int) <= i32::MAX,
        ensures
            obstacle.x == x,
            GAP_ROW_MIN <= obstacle.gap_y < GAP_ROW_END,
            obstacle.size == gap_size(score as int),
            obstacle.wf(),
    {
        let mut random = RandomNumberGenerator::new();
        let gap_y = range(&mut random, GAP_ROW_MIN, GAP_ROW_END);
        Obstacle::with_gap(x, gap_y, score)
    }

    /// Half the height of the gap, rounded down.
    fn half_size(&self) -> (half: i64)
        ensures
            half == self.half(),
    {
        let size: i64 = self.size as i64;
        if size >= 0 {
            size / 2
        } else {
            (size - 1) / 2
        }
    }

    /// Whether the wall can be drawn for a dragon in world column
    /// `player_x`: the exact test of `can_render`.
    pub(crate) fn render_fits(&self, player_x: i32) -> (fits: bool)
        ensures
            fits == self.can_render(player_x),
    {
        let low: i64 = i32::MIN as i64;
        let high: i64 = i32::MAX as i64;
        let half = self.half_size();
        let screen_x: i64 = self.x as i64 - player_x as i64;
        let upper_end: i64 = self.gap_y as i64 - half;
        let lower_start: i64 = self.gap_y as i64 + half;
        low <= screen_x && screen_x <= high && low <= upper_end && upper_end <= high && low
            <= lower_start && lower_start <= high
    }

    /// The requests that draw the wall for a dragon in world column
    /// `player_x`, top to bottom.
    pub fn render(&self, player_x: i32) -> (cells: Vec<Draw>)
        requires
            self.can_render(player_x),
        ensures
            cells@ == self.wall(player_x),
    {
        let screen_x: i32 = self.x - player_x;
        let half = self.half_size();
        let upper_end: i32 = (self.gap_y as i64 - half) as i32;
        let lower_start: i32 = (self.gap_y as i64 + half) as i32;
        let fg = red();
        let bg = black();
        let glyph = to_cp437(WALL_SYMBOL);
        let mut cells: Vec<Draw> = Vec::new();
        let mut y: i32 = 0;
        while y < upper_end
            invariant
                0 <= y,
                y <= upper_end || y == 0,
                fg == red_rgb(),
                bg == black_rgb(),
                glyph == ascii_glyph(WALL_SYMBOL),
                cells@ == wall_cells(screen_x as int, 0, y as int),
            decreases upper_end - y,
        {
            cells.push(Draw::Cell { x: screen_x, y, fg, bg, glyph });
            y = y + 1;
            assert(cells@ =~= wall_cells(screen_x as int, 0, y as int));
        }
        assert(cells@ =~= wall_cells(screen_x as int, 0, upper_end as int));
        let ghost upper = cells@;
        let mut y: i32 = lower_start;
        while y < SCREEN_HEIGHT
            invariant
                lower_start <= y,
                y <= SCREEN_HEIGHT || y == lower_start,
                fg == red_rgb(),
                bg == black_rgb(),
                glyph == ascii_glyph(WALL_SYMBOL),
                cells@ == upper + wall_cells(screen_x as int, lower_start as int, y as int),
            decreases SCREEN_HEIGHT - y,
        {
            cells.push(Draw::Cell { x: screen_x, y, fg, bg, glyph });
            y = y + 1;
            assert(cells@ =~= upper + wall_cells(screen_x as int, lower_start as int, y as int));
        }
        assert(cells@ =~= upper + wall_cells(
            screen_x as int,
            lower_start as int,
            SCREEN_HEIGHT as int,
        ));
        cells
    }

    /// Whether the dragon has run into the wall. Only a dragon in the wall's
    /// own column can hit it.
    pub fn hit_obstacle(&self, player: &Player) -> (hit: bool)
        ensures
            hit == self.hits(*player),
    {
        let half = self.half_size();
        let gap_y: i64 = self.gap_y as i64;
        let y: i64 = player.y as i64;
        player.x == self.x && (y < gap_y - half || y > gap_y + half)
    }
}

/// In the wall's column, the row just above the upper end of the gap is a
/// hit, and the centre row of a gap of no negative height is not.
pub proof fn lemma_collision_at_the_gap(obstacle: Obstacle, player: Player)
    requires
        player.x == obstacle.x,
    ensures
        player.y == obstacle.gap_y - obstacle.half() - 1 ==> obstacle.hits(player),
        player.y == obstacle.gap_y && obstacle.size >= 0 ==> !obstacle.hits(player),
{
}

/// A dragon outside the wall's column never hits it.
pub proof fn lemma_no_collision_off_column(obstacle: Obstacle, player: Player)
    requires
        player.x != obstacle.x,
    ensures
        !obstacle.hits(player),
{
}

/// The gap never grows with the score and never goes below the narrowest gap.
pub proof fn lemma_gap_shrinks_to_floor(score: int, later: int)
    requires
        score <= later,
    ensures
        gap_size(later) <= gap_size(score),
        gap_size(score) >= NARROWEST_GAP,
        score >= WIDEST_GAP - NARROWEST_GAP ==> gap_size(score) == NARROWEST_GAP,
        0 <= score ==> gap_size(score) <= WIDEST_GAP,
{
}

} // verus!
