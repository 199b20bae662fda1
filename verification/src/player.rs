//! The dragon: where it is, how fast it falls, and which wing frame it shows.

use vstd::prelude::*;
use crate::constants::{
    DRAGON_FRAMES, FLAP_VELOCITY, GRAVITY, ROW_HEIGHT, TERMINAL_VELOCITY,
};

verus! {

/// The dragon's state.
#[derive(Clone, Copy, Debug, PartialEq, Eq)]
pub struct Player {
    /// Columns travelled.
    pub x: i32,
    /// Height below the top of the playfield, in tenths of a row.
    pub y: i32,
    /// Vertical speed in tenths of a row per physics step; positive is
    /// downwards.
    pub velocity: i32,
    /// Index of the current wing frame.
    pub frame: usize,
}

/// What is drawn of the dragon: where, which glyph, and the speed from which
/// the renderer takes the tilt.
#[derive(Clone, Copy, Debug, PartialEq, Eq)]
pub struct Sprite {
    /// Height below the top of the playfield, in tenths of a row.
    pub y: i32,
    /// Vertical speed in tenths of a row per physics step; positive is
    /// downwards.
    pub velocity: i32,
    /// The glyph of the current wing frame.
    pub glyph: u16,
}

/// A `Player` over the mathematical integers.
pub struct PlayerView {
    pub x: int,
    pub y: int,
    pub velocity: int,
    pub frame: nat,
}

impl View for Player {
    type V = PlayerView;

    open spec fn view(&self) -> PlayerView {
        PlayerView {
            x: self.x as int,
            y: self.y as int,
            velocity: self.velocity as int,
            frame: self.frame as nat,
        }
    }
}

/// The vertical speed after one physics step that began at speed `v`.
pub open spec fn next_velocity(v: int) -> int {
    if v < TERMINAL_VELOCITY {
        v + GRAVITY
    } else {
        v
    }
}

impl PlayerView {
    /// A dragon at rest in column `x`, at the top edge of row `row`.
    pub open spec fn at(x: int, row: int) -> PlayerView {
        PlayerView { x, y: row * ROW_HEIGHT, velocity: 0, frame: 0 }
    }

    /// The dragon after one physics step: gravity acts on the speed, the speed
    /// on the height, the height stops at the top edge, and the dragon moves
    /// one column on and shows its next wing frame.
    pub open spec fn moved(self) -> PlayerView {
        let velocity = next_velocity(self.velocity);
        let y = self.y + velocity;
        PlayerView {
            x: self.x + 1,
            y: if y < 0 { 0 } else { y },
            velocity,
            frame: (self.frame + 1) % DRAGON_FRAMES@.len(),
        }
    }

    /// The dragon after `n` physics steps with no flap between them.
    pub open spec fn moved_by(self, n: nat) -> PlayerView
        decreases n,
    {
        if n == 0 {
            self
        } else {
            self.moved_by((n - 1) as nat).moved()
        }
    }

    /// The dragon after a flap: only its speed changes.
    pub open spec fn flapped(self) -> PlayerView {
        PlayerView { velocity: FLAP_VELOCITY as int, ..self }
    }
}

/// Under gravity alone the speed never falls: of two moments in a run of
/// physics steps the later has the greater speed or the same, and once the
/// speed has reached `TERMINAL_VELOCITY` it stays what it is.
pub proof fn velocity_rises_to_terminal(player: PlayerView, earlier: nat, later: nat)
    requires
        earlier <= later,
    ensures
        player.moved_by(earlier).velocity <= player.moved_by(later).velocity,
        player.moved_by(earlier).velocity >= TERMINAL_VELOCITY ==> player.moved_by(later).velocity
            == player.moved_by(earlier).velocity,
    decreases later,
{
    if earlier < later {
        velocity_rises_to_terminal(player, earlier, (later - 1) as nat);
    }
}

/// Gravity never takes a dragon past `TERMINAL_VELOCITY`: a speed that is
/// within the limit stays within it through any run of physics steps.
pub proof fn velocity_keeps_to_terminal(player: PlayerView, n: nat)
    requires
        player.velocity <= TERMINAL_VELOCITY,
    ensures
        player.moved_by(n).velocity <= TERMINAL_VELOCITY,
    decreases n,
{
    if n > 0 {
        velocity_keeps_to_terminal(player, (n - 1) as nat);
    }
}

/// A dragon that starts on or below the top edge is never above it, however
/// many physics steps it makes.
pub proof fn height_stays_non_negative(player: PlayerView, n: nat)
    requires
        player.y >= 0,
    ensures
        player.moved_by(n).y >= 0,
    decreases n,
{
    if n > 0 {
        height_stays_non_negative(player, (n - 1) as nat);
    }
}

/// Every physics step takes the dragon exactly one column on.
pub proof fn column_counts_steps(player: PlayerView, n: nat)
    ensures
        player.moved_by(n).x == player.x + n,
    decreases n,
{
    if n > 0 {
        column_counts_steps(player, (n - 1) as nat);
    }
}

/// A flap overwrites the speed: whatever the speed was, it is
/// `FLAP_VELOCITY` afterwards, and a second flap changes nothing.
pub proof fn flap_overwrites_velocity(player: PlayerView, velocity: int)
    ensures
        player.flapped().velocity == FLAP_VELOCITY,
        (PlayerView { velocity, ..player }).flapped() == player.flapped(),
        player.flapped().flapped() == player.flapped(),
{
}

impl Player {
    /// What holds of a dragon in flight: it is not above the top edge, not
    /// faster than gravity can make it, and shows a frame of the wing cycle.
    pub open spec fn wf(self) -> bool {
        &&& self.y >= 0
        &&& self.velocity <= TERMINAL_VELOCITY
        &&& self.frame < DRAGON_FRAMES@.len()
    }

    /// Machine limits of `gravity_and_move`: the next column and the next
    /// height have to fit in an `i32`.
    pub open spec fn can_move(self) -> bool {
        &&& self.x < i32::MAX
        &&& self.y + next_velocity(self.velocity as int) <= i32::MAX
    }

    /// What `render` hands to the renderer.
    pub open spec fn sprite(self) -> Sprite
        recommends
            self.frame < DRAGON_FRAMES@.len(),
    {
        Sprite { y: self.y, velocity: self.velocity, glyph: DRAGON_FRAMES[self.frame as int] }
    }

    /// A dragon at rest in column `x`, at the top edge of row `y`.
    pub fn new(x: i32, y: i32) -> (player: Player)
        requires
            i32::MIN <= y * ROW_HEIGHT <= i32::MAX,
        ensures
            player@ == PlayerView::at(x as int, y as int),
            y >= 0 ==> player.wf(),
    {
        Player { x, y: y * ROW_HEIGHT, velocity: 0, frame: 0 }
    }

    /// One physics step. Gravity adds to the speed unless the speed has
    /// reached `TERMINAL_VELOCITY`; the speed is added to the height, which
    /// stops at the top edge; the dragon moves one column on and shows its
    /// next wing frame.
    pub fn gravity_and_move(&mut self)
        requires
            old(self).can_move(),
        ensures
            final(self)@ == old(self)@.moved(),
            final(self).y >= 0,
            old(self).velocity <= final(self).velocity,
            old(self).velocity >= TERMINAL_VELOCITY ==> final(self).velocity == old(self).velocity,
            old(self).wf() ==> final(self).wf(),
    {
        if self.velocity < TERMINAL_VELOCITY {
            self.velocity += GRAVITY;
        }
        let fallen: i64 = self.y as i64 + self.velocity as i64;
        self.y = if fallen < 0 { 0 } else { fallen as i32 };
        self.x += 1;
        self.frame = (self.frame % DRAGON_FRAMES.len() + 1) % DRAGON_FRAMES.len();
    }

    /// The dragon as it is to be drawn. The dragon itself stays as it is.
    pub fn render(&mut self) -> (sprite: Sprite)
        requires
            old(self).frame < DRAGON_FRAMES@.len(),
        ensures
            *final(self) == *old(self),
            sprite == old(self).sprite(),
    {
        Sprite { y: self.y, velocity: self.velocity, glyph: DRAGON_FRAMES[self.frame] }
    }

    /// A beat of the wings: the speed becomes `FLAP_VELOCITY`, whatever it
    /// was. Nothing else changes.
    pub fn flap(&mut self)
        ensures
            final(self)@ == old(self)@.flapped(),
            final(self).velocity == FLAP_VELOCITY,
    {
        self.velocity = FLAP_VELOCITY;
    }
}

} // verus!
