//! The game as a whole: its three screens and what one tick does on each.

use vstd::prelude::*;
use crate::obstacle::{gap_size, Obstacle, GAP_ROW_END, GAP_ROW_MIN, WIDEST_GAP};
use crate::palette::{navy, navy_rgb};
use crate::player::Player;
use crate::screen::{Draw, Frame, Key, Message, SCREEN_HEIGHT, SCREEN_WIDTH};

verus! {

/// The milliseconds that must have gone by before the next physics step.
pub const FRAME_DURATION: u32 = 70;

/// The world column in which the dragon starts a game.
pub const START_X: i32 = 5;

/// The row in which the dragon starts a game.
pub const START_Y: i32 = 25;

/// The highest score at which a game that has run from its start can still
/// go on: beyond it the column of the next wall would not fit its type.
pub const MAX_SCORE: i32 = 26_512_141;

/// One of the three screens of the game.
#[derive(Clone, Copy, Debug, PartialEq, Eq, Structural)]
pub enum GameMode {
    /// The title screen, before the first game.
    Menu,
    /// A game is running.
    Playing,
    /// The dragon has died.
    End,
}

/// The whole game. `frame_time` counts the milliseconds since the last
/// physics step; `score` counts the walls that the dragon has passed.
#[derive(Clone, Copy, Debug, PartialEq, Eq, Structural)]
pub struct State {
    pub mode: GameMode,
    pub player: Player,
    pub frame_time: u32,
    pub score: i32,
    pub obstacle: Obstacle,
}

/// What the menu shows.
pub open spec fn menu_frame() -> Seq<Draw> {
    seq![
        Draw::Clear,
        Draw::PrintCentered { y: 5, message: Message::Welcome },
        Draw::PrintCentered { y: 8, message: Message::PlayOption },
        Draw::PrintCentered { y: 9, message: Message::QuitOption },
    ]
}

/// What the end screen shows after a game that reached `score`.
pub open spec fn end_frame(score: i32) -> Seq<Draw> {
    seq![
        Draw::Clear,
        Draw::PrintCentered { y: 5, message: Message::Dead },
        Draw::PrintCentered { y: 6, message: Message::Earned(score) },
        Draw::PrintCentered { y: 8, message: Message::PlayOption },
        Draw::PrintCentered { y: 9, message: Message::QuitOption },
    ]
}

/// What a running game shows: the sky, the dragon, the hint and the score,
/// and then the wall as the dragon sees it.
pub open spec fn playing_frame(player: Player, score: i32, obstacle: Obstacle) -> Seq<Draw> {
    seq![
        Draw::ClearTo { background: navy_rgb() },
        player.sprite(),
        Draw::Print { x: 0, y: 0, message: Message::FlapHint },
        Draw::Print { x: 0, y: 1, message: Message::Score(score) },
    ] + obstacle.wall(player.x)
}

impl State {
    /// Whether the game is in a state that ticks lead to from a start. The
    /// walls stand one screen width and a column apart, the first at the
    /// right edge of the screen, so the score tells where the wall is; the
    /// dragon has not yet left the wall behind; and while the game runs the
    /// dragon is on the screen and not in the wall.
    pub open spec fn wf(self) -> bool {
        &&& self.player.wf()
        &&& self.obstacle.wf()
        &&& 0 <= self.score
        &&& self.obstacle.size == gap_size(self.score as int)
        &&& self.obstacle.x == SCREEN_WIDTH + (SCREEN_WIDTH + 1) * self.score
        &&& START_X <= self.player.x <= self.obstacle.x
        &&& 0 <= self.player.y
        &&& self.frame_time <= FRAME_DURATION
        &&& self.mode == GameMode::Playing ==> {
            &&& self.player.y <= SCREEN_HEIGHT
            &&& !self.obstacle.hits(self.player)
        }
    }

    /// Whether everything but the screen is as at the start of a game: the
    /// dragon at rest at its starting place, no time gone by, no point
    /// scored, and the first wall at the right edge of the screen with the
    /// widest gap.
    pub open spec fn fresh(self) -> bool {
        &&& self.player == (Player { x: START_X, y: START_Y, velocity: 0 })
        &&& self.frame_time == 0
        &&& self.score == 0
        &&& self.obstacle.x == SCREEN_WIDTH
        &&& GAP_ROW_MIN <= self.obstacle.gap_y < GAP_ROW_END
        &&& self.obstacle.size == gap_size(0)
    }

    /// Whether enough time has gone by, with `elapsed_ms` more, for a physics
    /// step.
    pub open spec fn physics_due(self, elapsed_ms: u32) -> bool {
        self.frame_time + elapsed_ms > FRAME_DURATION
    }

    /// The time since the last physics step, after a tick of a running game:
    /// it starts over with each physics step.
    pub open spec fn next_frame_time(self, elapsed_ms: u32) -> int {
        if self.physics_due(elapsed_ms) {
            0
        } else {
            self.frame_time + elapsed_ms
        }
    }

    /// The dragon after a tick of a running game: moved by a physics step if
    /// one is due, and then made to flap if the space key is down.
    pub open spec fn next_player(self, elapsed_ms: u32, key: Option<Key>) -> Player {
        let fallen = if self.physics_due(elapsed_ms) {
            self.player.moved()
        } else {
            self.player
        };
        if key == Some(Key::Space) {
            fallen.flapped()
        } else {
            fallen
        }
    }

    /// Whether the dragon gets past the wall in this tick of a running game.
    pub open spec fn passes(self, elapsed_ms: u32, key: Option<Key>) -> bool {
        self.next_player(elapsed_ms, key).x > self.obstacle.x
    }

    /// Whether every number that a tick of a running game computes fits its
    /// type.
    pub open spec fn can_play(self, elapsed_ms: u32, key: Option<Key>) -> bool {
        let player = self.next_player(elapsed_ms, key);
        &&& self.physics_due(elapsed_ms) ==> self.player.can_move()
        &&& self.obstacle.can_render(player.x)
        &&& self.passes(elapsed_ms, key) ==> {
            &&& player.x + SCREEN_WIDTH <= i32::MAX
            &&& self.score < i32::MAX
            &&& gap_size(self.score + 1) <= i32::MAX
        }
    }

    /// Whether `next` can follow `self` by a tick of a running game.
    /// Everything in `next` is fixed by `self`, the time and the key, except
    /// the row of the gap in a wall that the tick has put up.
    pub open spec fn played(self, elapsed_ms: u32, key: Option<Key>, next: State) -> bool {
        let player = self.next_player(elapsed_ms, key);
        &&& next.frame_time == self.next_frame_time(elapsed_ms)
        &&& next.player == player
        &&& if self.passes(elapsed_ms, key) {
            &&& next.score == self.score + 1
            &&& next.obstacle.x == player.x + SCREEN_WIDTH
            &&& GAP_ROW_MIN <= next.obstacle.gap_y < GAP_ROW_END
            &&& next.obstacle.size == gap_size(next.score as int)
        } else {
            &&& next.score == self.score
            &&& next.obstacle == self.obstacle
        }
        &&& next.mode == if player.y > SCREEN_HEIGHT || next.obstacle.hits(player) {
            GameMode::End
        } else {
            self.mode
        }
    }

    /// Whether `next` can follow `self` by a tick of the menu or of the end
    /// screen: the key P starts a game, nothing else changes anything.
    pub open spec fn chose(self, key: Option<Key>, next: State) -> bool {
        if key == Some(Key::P) {
            next.mode == GameMode::Playing && next.fresh()
        } else {
            next == self
        }
    }

    /// Whether `next` can follow `self` by a tick.
    pub open spec fn ticked(self, elapsed_ms: u32, key: Option<Key>, next: State) -> bool {
        match self.mode {
            GameMode::Menu => self.chose(key, next),
            GameMode::Playing => self.played(elapsed_ms, key, next),
            GameMode::End => self.chose(key, next),
        }
    }

    /// What a tick draws.
    pub open spec fn drawn(self, elapsed_ms: u32, key: Option<Key>) -> Seq<Draw> {
        match self.mode {
            GameMode::Menu => menu_frame(),
            GameMode::Playing => playing_frame(
                self.next_player(elapsed_ms, key),
                self.score,
                self.obstacle,
            ),
            GameMode::End => end_frame(self.score),
        }
    }

    /// Whether a tick asks to leave the program: on the key Q, on the menu
    /// and on the end screen.
    pub open spec fn quits(self, key: Option<Key>) -> bool {
        self.mode != GameMode::Playing && key == Some(Key::Q)
    }

    /// Whether a tick can be made: a running game needs every number of the
    /// tick to fit its type, the two other screens need nothing.
    pub open spec fn can_tick(self, elapsed_ms: u32, key: Option<Key>) -> bool {
        self.mode == GameMode::Playing ==> self.can_play(elapsed_ms, key)
    }

    /// The game as the program starts: on the menu, with everything set up
    /// for the first game.
    pub fn new() -> (state: Self)
        ensures
            state.mode == GameMode::Menu,
            state.fresh(),
            state.wf(),
    {
        State {
            mode: GameMode::Menu,
            player: Player::new(START_X, START_Y),
            frame_time: 0,
            score: 0,
            obstacle: Obstacle::new(SCREEN_WIDTH, 0),
        }
    }

    /// One tick of a running game. Time adds up, and once more than the
    /// frame duration has gone by the dragon makes one physics step. The space
    /// key makes it flap, on any tick. The frame shows the dragon where it now
    /// is, with the score and the wall as they were at the start of the tick.
    /// A dragon that has got past the wall scores a point and meets a new
    /// wall, one screen width ahead of it. A dragon below the bottom of the
    /// screen, or in the wall, ends the game; everything else stays as it is
    /// at that moment.
    pub fn play(&mut self, elapsed_ms: u32, key: Option<Key>) -> (frame: Frame)
        requires
            old(self).can_play(elapsed_ms, key),
        ensures
            old(self).played(elapsed_ms, key, *final(self)),
            frame.draws@ == playing_frame(final(self).player, old(self).score, old(self).obstacle),
            !frame.quit,
            old(self).wf() ==> final(self).wf(),
    {
        let mut draws: Vec<Draw> = Vec::new();
        draws.push(Draw::ClearTo { background: navy() });
        let total: u64 = self.frame_time as u64 + elapsed_ms as u64;
        if total > FRAME_DURATION as u64 {
            self.frame_time = 0;
            self.player.gravity_and_move();
        } else {
            self.frame_time = total as u32;
        }
        if let Some(Key::Space) = key {
            self.player.flap();
        }
        draws.push(self.player.render());
        draws.push(Draw::Print { x: 0, y: 0, message: Message::FlapHint });
        draws.push(Draw::Print { x: 0, y: 1, message: Message::Score(self.score) });
        let mut wall = self.obstacle.render(self.player.x);
        draws.append(&mut wall);
        assert(draws@ =~= playing_frame(self.player, self.score, self.obstacle));
        if self.player.x > self.obstacle.x {
            self.score = self.score + 1;
            self.obstacle = Obstacle::new(self.player.x + SCREEN_WIDTH, self.score);
        }
        if self.player.y > SCREEN_HEIGHT || self.obstacle.hit_obstacle(&self.player) {
            self.mode = GameMode::End;
        }
        Frame { draws, quit: false }
    }

    /// Starts a game: the screen of the running game, and everything else as
    /// at the start.
    pub fn restart(&mut self)
        ensures
            final(self).mode == GameMode::Playing,
            final(self).fresh(),
            final(self).wf(),
    {
        self.mode = GameMode::Playing;
        self.player = Player::new(START_X, START_Y);
        self.frame_time = 0;
        self.score = 0;
        self.obstacle = Obstacle::new(SCREEN_WIDTH, 0);
    }

    /// One tick of the menu: it shows the title and the two options. The key
    /// P starts a game, the key Q asks to leave, any other key does nothing.
    pub fn main_menu(&mut self, key: Option<Key>) -> (frame: Frame)
        ensures
            old(self).chose(key, *final(self)),
            frame.draws@ == menu_frame(),
            frame.quit == (key == Some(Key::Q)),
            old(self).wf() ==> final(self).wf(),
    {
        let mut draws: Vec<Draw> = Vec::new();
        draws.push(Draw::Clear);
        draws.push(Draw::PrintCentered { y: 5, message: Message::Welcome });
        draws.push(Draw::PrintCentered { y: 8, message: Message::PlayOption });
        draws.push(Draw::PrintCentered { y: 9, message: Message::QuitOption });
        assert(draws@ =~= menu_frame());
        let mut quit = false;
        match key {
            Some(Key::P) => self.restart(),
            Some(Key::Q) => {
                quit = true;
            },
            _ => {},
        }
        Frame { draws, quit }
    }

    /// One tick of the end screen: it shows that the dragon is dead, the
    /// score of the game that has ended, and the two options. The key P
    /// starts a game, the key Q asks to leave, any other key does nothing.
    pub fn dead(&mut self, key: Option<Key>) -> (frame: Frame)
        ensures
            old(self).chose(key, *final(self)),
            frame.draws@ == end_frame(old(self).score),
            frame.quit == (key == Some(Key::Q)),
            old(self).wf() ==> final(self).wf(),
    {
        let mut draws: Vec<Draw> = Vec::new();
        draws.push(Draw::Clear);
        draws.push(Draw::PrintCentered { y: 5, message: Message::Dead });
        draws.push(Draw::PrintCentered { y: 6, message: Message::Earned(self.score) });
        draws.push(Draw::PrintCentered { y: 8, message: Message::PlayOption });
        draws.push(Draw::PrintCentered { y: 9, message: Message::QuitOption });
        assert(draws@ =~= end_frame(self.score));
        let mut quit = false;
        match key {
            Some(Key::P) => self.restart(),
            Some(Key::Q) => {
                quit = true;
            },
            _ => {},
        }
        Frame { draws, quit }
    }

    /// Whether a tick of a running game can be made: the exact test of
    /// `can_play`.
    fn play_fits(&self, elapsed_ms: u32, key: Option<Key>) -> (fits: bool)
        ensures
            fits == self.can_play(elapsed_ms, key),
    {
        let due = self.frame_time as u64 + elapsed_ms as u64 > FRAME_DURATION as u64;
        if due && !self.player.move_fits() {
            return false;
        }
        let x: i32 = if due {
            self.player.x + 1
        } else {
            self.player.x
        };
        if !self.obstacle.render_fits(x) {
            return false;
        }
        if x > self.obstacle.x {
            x <= i32::MAX - SCREEN_WIDTH && self.score < i32::MAX && self.score >= WIDEST_GAP
                - 1 - i32::MAX
        } else {
            true
        }
    }

    /// One tick: what the screen that is up does with the time that has gone
    /// by since the last tick and the key that is down.
    pub fn tick(&mut self, elapsed_ms: u32, key: Option<Key>) -> (frame: Frame)
        requires
            old(self).can_tick(elapsed_ms, key),
        ensures
            old(self).ticked(elapsed_ms, key, *final(self)),
            frame.draws@ == old(self).drawn(elapsed_ms, key),
            frame.quit == old(self).quits(key),
            old(self).wf() ==> final(self).wf(),
    {
        match self.mode {
            GameMode::Menu => self.main_menu(key),
            GameMode::Playing => self.play(elapsed_ms, key),
            GameMode::End => self.dead(key),
        }
    }

    /// One tick, for any state and any input. Where a number of the tick
    /// would not fit its type, nothing is done and nothing is returned.
    pub fn checked_tick(&mut self, elapsed_ms: u32, key: Option<Key>) -> (frame: Option<Frame>)
        ensures
            frame is Some <==> old(self).can_tick(elapsed_ms, key),
            frame matches Some(shown) ==> {
                &&& old(self).ticked(elapsed_ms, key, *final(self))
                &&& shown.draws@ == old(self).drawn(elapsed_ms, key)
                &&& shown.quit == old(self).quits(key)
            },
            frame is None ==> *final(self) == *old(self),
            old(self).wf() ==> final(self).wf(),
    {
        let fits = match self.mode {
            GameMode::Playing => self.play_fits(elapsed_ms, key),
            _ => true,
        };
        if fits {
            Some(self.tick(elapsed_ms, key))
        } else {
            None
        }
    }
}

/// A tick leads from a well-formed game to a well-formed game.
pub proof fn lemma_tick_keeps_wf(state: State, elapsed_ms: u32, key: Option<Key>, next: State)
    requires
        state.wf(),
        state.can_tick(elapsed_ms, key),
        state.ticked(elapsed_ms, key, next),
    ensures
        next.wf(),
{
}

/// A well-formed game whose score is not above the highest score can always
/// make a tick, whatever the time and the key.
pub proof fn lemma_wf_can_tick(state: State, elapsed_ms: u32, key: Option<Key>)
    requires
        state.wf(),
        state.score <= MAX_SCORE,
    ensures
        state.can_tick(elapsed_ms, key),
{
}

/// Time alone moves nothing. Over any number of ticks of a running game in
/// which no physics step comes due and the space key is not down, the dragon
/// stays exactly as it was: column, row and velocity.
pub proof fn lemma_waiting_moves_nothing(
    states: Seq<State>,
    elapsed_ms: Seq<u32>,
    keys: Seq<Option<Key>>,
    n: int,
)
    requires
        states.len() == elapsed_ms.len() + 1,
        keys.len() == elapsed_ms.len(),
        forall|i: int|
            0 <= i < elapsed_ms.len() ==> {
                &&& (#[trigger] states[i]).mode == GameMode::Playing
                &&& !states[i].physics_due(elapsed_ms[i])
                &&& keys[i] != Some(Key::Space)
                &&& states[i].ticked(elapsed_ms[i], keys[i], states[i + 1])
            },
        0 <= n < states.len(),
    ensures
        states[n].player == states[0].player,
    decreases n,
{
    if n > 0 {
        lemma_waiting_moves_nothing(states, elapsed_ms, keys, n - 1);
        assert(states[n - 1].ticked(elapsed_ms[n - 1], keys[n - 1], states[n - 1 + 1]));
    }
}

/// The score goes up exactly when the dragon has got past the wall, by
/// exactly one, and the next wall then stands one screen width ahead of the
/// dragon. Otherwise score and wall stay as they are.
pub proof fn lemma_passing_scores(state: State, elapsed_ms: u32, key: Option<Key>, next: State)
    requires
        state.played(elapsed_ms, key, next),
    ensures
        next.player.x > state.obstacle.x ==> next.score == state.score + 1 && next.obstacle.x
            == next.player.x + SCREEN_WIDTH,
        next.player.x <= state.obstacle.x ==> next.score == state.score && next.obstacle
            == state.obstacle,
{
}

/// In a well-formed game the dragon never skips the column of the wall: when
/// it gets past the wall in a tick, it stood in the wall's column before it.
pub proof fn lemma_wall_column_is_never_skipped(state: State, elapsed_ms: u32, key: Option<Key>)
    requires
        state.wf(),
        state.can_play(elapsed_ms, key),
        state.passes(elapsed_ms, key),
    ensures
        state.player.x == state.obstacle.x,
        state.physics_due(elapsed_ms),
{
}

} // verus!
