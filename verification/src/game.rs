//! The session: title screen, play, game over, and what each callback of the
//! surrounding loop does to it.

use vstd::prelude::*;
use crate::constants::{
    FRAME_DURATION, ROW_HEIGHT, SCREEN_HEIGHT, SCREEN_WIDTH, START_COLUMN, WIDEST_GAP,
};
use crate::obstacle::{Cell, Obstacle, ObstacleView};
use crate::player::{Player, PlayerView, Sprite};

verus! {

/// The three screens of the game.
#[derive(Clone, Copy, Debug, PartialEq, Eq)]
pub enum GameMode {
    Menu,
    Playing,
    End,
}

/// The keys that mean something to the game.
#[derive(Clone, Copy, Debug, PartialEq, Eq)]
pub enum Key {
    /// Beat the wings.
    Flap,
    /// Start a game, or start over.
    Restart,
    /// Leave the program.
    Quit,
}

/// What the renderer is to draw for one callback.
#[derive(Debug, PartialEq, Eq)]
pub enum Scene {
    /// The title screen.
    Menu,
    /// The playfield: the dragon, the score, and the cells of the wall.
    Playing { sprite: Sprite, score: u32, walls: Vec<Cell> },
    /// The game-over screen, with the score that was reached.
    End { score: u32 },
}

/// A `Scene` with the wall as a sequence of cells.
pub enum SceneView {
    Menu,
    Playing { sprite: Sprite, score: u32, walls: Seq<Cell> },
    End { score: u32 },
}

impl View for Scene {
    type V = SceneView;

    open spec fn view(&self) -> SceneView {
        match *self {
            Scene::Menu => SceneView::Menu,
            Scene::Playing { sprite, score, walls } => SceneView::Playing {
                sprite,
                score,
                walls: walls@,
            },
            Scene::End { score } => SceneView::End { score },
        }
    }
}

/// The answer to one callback: what to draw, and whether the program is to
/// end.
#[derive(Debug, PartialEq, Eq)]
pub struct Frame {
    pub scene: Scene,
    pub quitting: bool,
}

/// The whole game.
#[derive(Clone, Copy, Debug, PartialEq, Eq)]
pub struct State {
    pub player: Player,
    /// Time gathered since the last physics step, in nanoseconds.
    pub frame_time: u32,
    pub mode: GameMode,
    pub obstacle: Obstacle,
    pub score: u32,
}

/// A `State` over the mathematical integers.
pub struct StateView {
    pub player: PlayerView,
    pub frame_time: int,
    pub mode: GameMode,
    pub obstacle: ObstacleView,
    pub score: int,
}

impl View for State {
    type V = StateView;

    open spec fn view(&self) -> StateView {
        StateView {
            player: self.player@,
            frame_time: self.frame_time as int,
            mode: self.mode,
            obstacle: self.obstacle@,
            score: self.score as int,
        }
    }
}

impl StateView {
    /// The game as the program starts it: on the title screen, with the
    /// dragon and the first wall in place. `gap_y` is the row that chance
    /// gave the wall's gap.
    pub open spec fn initial(gap_y: int) -> StateView {
        StateView { mode: GameMode::Menu, ..Self::restarted(gap_y) }
    }

    /// The game right after a restart: in play at score 0, no time gathered,
    /// the dragon at rest in its starting place, the first wall one screen
    /// width from the left edge.
    pub open spec fn restarted(gap_y: int) -> StateView {
        StateView {
            player: PlayerView::at(START_COLUMN as int, SCREEN_HEIGHT as int / 2),
            frame_time: 0,
            mode: GameMode::Playing,
            obstacle: ObstacleView::spawned(SCREEN_WIDTH as int, gap_y, 0),
            score: 0,
        }
    }

    /// The title and game-over screens after a callback with `key`: a restart
    /// begins a new game, anything else leaves the game as it is.
    pub open spec fn chosen(self, key: Option<Key>, gap_y: int) -> StateView {
        if key == Some(Key::Restart) {
            Self::restarted(gap_y)
        } else {
            self
        }
    }

    /// Whether a callback that brings `elapsed` nanoseconds makes a physics
    /// step: the time gathered has to exceed `FRAME_DURATION`.
    pub open spec fn steps(self, elapsed: int) -> bool {
        self.frame_time + elapsed > FRAME_DURATION
    }

    /// The dragon after a callback in play: flapped at once if the key says
    /// so, and then moved if the callback makes a physics step.
    pub open spec fn flown(self, elapsed: int, key: Option<Key>) -> PlayerView {
        let flapped = if key == Some(Key::Flap) {
            self.player.flapped()
        } else {
            self.player
        };
        if self.steps(elapsed) {
            flapped.moved()
        } else {
            flapped
        }
    }

    /// Whether `player` ends the game: it has fallen below the playfield or
    /// struck the wall.
    pub open spec fn crashes(self, player: PlayerView) -> bool {
        player.y > SCREEN_HEIGHT * ROW_HEIGHT || self.obstacle.hits(player)
    }

    /// Whether `player` has left the wall behind.
    pub open spec fn passes(self, player: PlayerView) -> bool {
        player.x > self.obstacle.x
    }

    /// A game in play after a callback that brings `elapsed` nanoseconds and
    /// `key`. In this order: a flap is applied; time is gathered and, if it
    /// suffices, spent on one physics step; a crash ends the game; a wall that
    /// was passed scores a point and gives way to the next one, a screen width
    /// ahead of the dragon, with its gap in row `gap_y`.
    pub open spec fn played(self, elapsed: int, key: Option<Key>, gap_y: int) -> StateView {
        let player = self.flown(elapsed, key);
        StateView {
            player,
            frame_time: if self.steps(elapsed) {
                0
            } else {
                self.frame_time + elapsed
            },
            mode: if self.crashes(player) {
                GameMode::End
            } else {
                self.mode
            },
            obstacle: if self.passes(player) {
                ObstacleView::spawned(player.x + SCREEN_WIDTH, gap_y, self.score + 1)
            } else {
                self.obstacle
            },
            score: if self.passes(player) {
                self.score + 1
            } else {
                self.score
            },
        }
    }

    /// The game after one callback. `gap_y` is the row that chance gives the
    /// gap of a wall that the callback makes; without a new wall it plays no
    /// part.
    pub open spec fn ticked(self, elapsed: int, key: Option<Key>, gap_y: int) -> StateView {
        match self.mode {
            GameMode::Menu => self.chosen(key, gap_y),
            GameMode::Playing => self.played(elapsed, key, gap_y),
            GameMode::End => self.chosen(key, gap_y),
        }
    }

    /// Whether a callback with `key` asks the program to end: the quit key,
    /// on the title or the game-over screen.
    pub open spec fn quits(self, key: Option<Key>) -> bool {
        self.mode != GameMode::Playing && key == Some(Key::Quit)
    }
}

/// A restart on the title or the game-over screen begins a game in which
/// nothing of the run before is left: play at score 0 with no time gathered,
/// the dragon at rest in its starting place, and a first wall of the widest
/// gap one screen width from the left edge. Neither the time that the
/// callback brings nor the state before it matters, and the callback does not
/// ask the program to end.
pub proof fn restart_begins_afresh(state: StateView, elapsed: int, gap_y: int)
    requires
        state.mode != GameMode::Playing,
    ensures
        ({
            let next = state.ticked(elapsed, Some(Key::Restart), gap_y);
            &&& next == StateView::restarted(gap_y)
            &&& next.mode == GameMode::Playing
            &&& next.score == 0
            &&& next.frame_time == 0
            &&& next.player == PlayerView {
                x: START_COLUMN as int,
                y: (SCREEN_HEIGHT / 2) * ROW_HEIGHT,
                velocity: 0,
                frame: 0,
            }
            &&& next.obstacle == ObstacleView {
                x: SCREEN_WIDTH as int,
                gap_y,
                size: WIDEST_GAP as int,
            }
            &&& !state.quits(Some(Key::Restart))
        }),
{
}

/// A dragon that a callback in play leaves below the playfield, or in the
/// wall, ends the game in that same callback; any other leaves it in play.
pub proof fn crash_ends_the_game(state: StateView, elapsed: int, key: Option<Key>, gap_y: int)
    requires
        state.mode == GameMode::Playing,
    ensures
        ({
            let next = state.played(elapsed, key, gap_y);
            &&& next.player.y > SCREEN_HEIGHT * ROW_HEIGHT ==> next.mode == GameMode::End
            &&& state.obstacle.hits(next.player) ==> next.mode == GameMode::End
            &&& next.mode == GameMode::End || next.mode == GameMode::Playing
            &&& next.mode == GameMode::End <==> state.crashes(next.player)
        }),
{
}

/// The program is asked to end by the quit key on the title or the game-over
/// screen, and by nothing else; the game itself stays as it is.
pub proof fn quit_is_asked_outside_play(
    state: StateView,
    elapsed: int,
    key: Option<Key>,
    gap_y: int,
)
    ensures
        state.quits(key) <==> key == Some(Key::Quit) && (state.mode == GameMode::Menu || state.mode
            == GameMode::End),
        state.quits(key) ==> state.ticked(elapsed, key, gap_y) == state,
{
}

/// The mode changes only as the game's chart allows: the title and
/// game-over screens give way to play on a restart and to nothing else; play
/// gives way to the game-over screen on a crash and to nothing else.
pub proof fn mode_follows_chart(state: StateView, elapsed: int, key: Option<Key>, gap_y: int)
    ensures
        ({
            let next = state.ticked(elapsed, key, gap_y);
            match state.mode {
                GameMode::Menu | GameMode::End => if key == Some(Key::Restart) {
                    next.mode == GameMode::Playing
                } else {
                    next.mode == state.mode
                },
                GameMode::Playing => if state.crashes(state.flown(elapsed, key)) {
                    next.mode == GameMode::End
                } else {
                    next.mode == GameMode::Playing
                },
            }
        }),
{
}

/// The score never falls but on a restart, which sets it to 0, and a
/// callback adds at most one point: the point for a wall that the dragon has
/// left behind.
pub proof fn score_counts_walls(state: StateView, elapsed: int, key: Option<Key>, gap_y: int)
    ensures
        ({
            let next = state.ticked(elapsed, key, gap_y);
            if state.mode != GameMode::Playing {
                next.score == if key == Some(Key::Restart) {
                    0
                } else {
                    state.score
                }
            } else if state.passes(next.player) {
                &&& next.score == state.score + 1
                &&& next.obstacle == ObstacleView::spawned(
                    next.player.x + SCREEN_WIDTH,
                    gap_y,
                    next.score,
                )
            } else {
                &&& next.score == state.score
                &&& next.obstacle == state.obstacle
            }
        }),
{
}

/// A callback makes one physics step or none, however much time it brings:
/// none while the time gathered has not passed `FRAME_DURATION`, and one,
/// which uses up all the time gathered, once it has. A flap is taken either
/// way, and before the step: without a step only the speed changes, and with
/// one the dragon moves from the speed that the flap gave it.
pub proof fn one_step_at_most(state: StateView, elapsed: int, key: Option<Key>, gap_y: int)
    requires
        state.mode == GameMode::Playing,
    ensures
        ({
            let next = state.played(elapsed, key, gap_y);
            let flapped = if key == Some(Key::Flap) {
                state.player.flapped()
            } else {
                state.player
            };
            if state.frame_time + elapsed <= FRAME_DURATION {
                &&& next.frame_time == state.frame_time + elapsed
                &&& next.player == flapped
                &&& next.player.x == state.player.x
                &&& next.player.y == state.player.y
                &&& next.player.frame == state.player.frame
            } else {
                &&& next.frame_time == 0
                &&& next.player == flapped.moved()
                &&& next.player.x == state.player.x + 1
            }
        }),
{
}

/// No wall is skipped: a dragon that is not yet past the wall can leave it
/// behind only by a physics step out of the wall's own column, the one column
/// in which the wall can be struck.
pub proof fn wall_is_passed_from_its_column(
    state: StateView,
    elapsed: int,
    key: Option<Key>,
    gap_y: int,
)
    requires
        state.mode == GameMode::Playing,
        state.player.x <= state.obstacle.x,
    ensures
        ({
            let next = state.played(elapsed, key, gap_y);
            state.passes(next.player) ==> {
                &&& state.steps(elapsed)
                &&& state.player.x == state.obstacle.x
                &&& next.player.x == state.obstacle.x + 1
            }
        }),
{
}

impl State {
    /// What holds of the game between callbacks: its parts are well formed,
    /// the time gathered has not passed the threshold, the wall is ahead of
    /// the dragon by a screen width at most, and a dragon in play is on the
    /// playfield.
    pub open spec fn wf(self) -> bool {
        &&& self.player.wf()
        &&& self.obstacle.wf()
        &&& self.frame_time <= FRAME_DURATION
        &&& self.player.x <= self.obstacle.x <= self.player.x + SCREEN_WIDTH
        &&& self.mode == GameMode::Playing ==> self.player.y <= SCREEN_HEIGHT * ROW_HEIGHT
    }

    /// Machine limits of `tick`: while in play, the column of the next wall
    /// has to fit in an `i32` and the next score in a `u32`.
    pub open spec fn can_tick(self) -> bool {
        self.mode == GameMode::Playing ==> {
            &&& self.player.x + 1 + SCREEN_WIDTH <= i32::MAX
            &&& self.score < u32::MAX
        }
    }

    /// What a callback draws that finds the game as `self` and leaves it as
    /// `after`: the screen of the mode it found, the dragon as the callback
    /// left it, the score and the wall as it found them.
    pub open spec fn scene(self, after: State) -> SceneView {
        match self.mode {
            GameMode::Menu => SceneView::Menu,
            GameMode::Playing => SceneView::Playing {
                sprite: after.player.sprite(),
                score: self.score,
                walls: self.obstacle@.walls((self.obstacle.x - after.player.x) as i32),
            },
            GameMode::End => SceneView::End { score: self.score },
        }
    }

    /// The game as the program starts it: on the title screen.
    pub fn new() -> (state: State)
        ensures
            state@ == StateView::initial(state.obstacle.gap_y as int),
            state.wf(),
    {
        State {
            player: Player::new(START_COLUMN, SCREEN_HEIGHT / 2),
            frame_time: 0,
            mode: GameMode::Menu,
            obstacle: Obstacle::new(SCREEN_WIDTH, 0),
            score: 0,
        }
    }

    /// One callback of the surrounding loop: `elapsed` nanoseconds have
    /// passed since the last one, and `key` was pressed, if any.
    pub fn tick(&mut self, elapsed: u32, key: Option<Key>) -> (frame: Frame)
        requires
            old(self).wf(),
            old(self).can_tick(),
        ensures
            final(self).wf(),
            final(self)@ == old(self)@.ticked(elapsed as int, key, final(self).obstacle.gap_y as int),
            frame.scene@ == old(self).scene(*final(self)),
            frame.quitting == old(self)@.quits(key),
    {
        match self.mode {
            GameMode::Menu => self.main_menu(key),
            GameMode::Playing => self.play(elapsed, key),
            GameMode::End => self.end(key),
        }
    }

    /// A callback on the title screen: the title is drawn, a restart begins
    /// a game, and the quit key asks the program to end.
    pub fn main_menu(&mut self, key: Option<Key>) -> (frame: Frame)
        requires
            old(self).wf(),
        ensures
            final(self).wf(),
            final(self)@ == old(self)@.chosen(key, final(self).obstacle.gap_y as int),
            frame.scene@ == SceneView::Menu,
            frame.quitting == (key == Some(Key::Quit)),
    {
        let mut quitting = false;
        match key {
            Some(Key::Restart) => self.restart(),
            Some(Key::Quit) => quitting = true,
            _ => {},
        }
        Frame { scene: Scene::Menu, quitting }
    }

    /// A callback in play. In this order: a flap is taken; time is gathered
    /// and, if it has passed `FRAME_DURATION`, spent on one physics step; a
    /// crash ends the game; a wall that was passed scores a point and gives
    /// way to the next.
    pub fn play(&mut self, elapsed: u32, key: Option<Key>) -> (frame: Frame)
        requires
            old(self).wf(),
            old(self).can_tick(),
            old(self).mode == GameMode::Playing,
        ensures
            final(self).wf(),
            final(self)@ == old(self)@.played(elapsed as int, key, final(self).obstacle.gap_y as int),
            frame.scene@ == old(self).scene(*final(self)),
            !frame.quitting,
    {
        if let Some(Key::Flap) = key {
            self.player.flap();
        }

        let gathered: u64 = self.frame_time as u64 + elapsed as u64;
        if gathered > FRAME_DURATION as u64 {
            self.frame_time = 0;
            self.player.gravity_and_move();
        } else {
            self.frame_time = gathered as u32;
        }
        let sprite = self.player.render();
        let score: u32 = self.score;
        if self.player.y > SCREEN_HEIGHT * ROW_HEIGHT || self.obstacle.is_hit(&self.player) {
            self.mode = GameMode::End;
        }
        let walls = self.obstacle.render(self.player.x);
        if self.player.x > self.obstacle.x {
            self.score += 1;
            self.obstacle = Obstacle::new(self.player.x + SCREEN_WIDTH, self.score);
        }
        Frame { scene: Scene::Playing { sprite, score, walls }, quitting: false }
    }

    /// A callback on the game-over screen: the score reached is drawn, a
    /// restart begins a new game, and the quit key asks the program to end.
    pub fn end(&mut self, key: Option<Key>) -> (frame: Frame)
        requires
            old(self).wf(),
        ensures
            final(self).wf(),
            final(self)@ == old(self)@.chosen(key, final(self).obstacle.gap_y as int),
            frame.scene@ == (SceneView::End { score: old(self).score }),
            frame.quitting == (key == Some(Key::Quit)),
    {
        let score: u32 = self.score;
        let mut quitting = false;
        match key {
            Some(Key::Restart) => self.restart(),
            Some(Key::Quit) => quitting = true,
            _ => {},
        }
        Frame { scene: Scene::End { score }, quitting }
    }

    /// Begins a new game, whatever the state was: nothing of the run before
    /// is kept, and the first wall is made afresh.
    pub fn restart(&mut self)
        ensures
            final(self)@ == StateView::restarted(final(self).obstacle.gap_y as int),
            final(self).wf(),
    {
        self.mode = GameMode::Playing;
        self.player = Player::new(START_COLUMN, SCREEN_HEIGHT / 2);
        self.frame_time = 0;
        self.obstacle = Obstacle::new(SCREEN_WIDTH, 0);
        self.score = 0;
    }
}

} // verus!
