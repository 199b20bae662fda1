//! The wall that comes towards the dragon, and the gap in it.

use vstd::prelude::*;
use bracket_lib::prelude::RandomNumberGenerator;
use crate::constants::{NARROWEST_GAP, ROW_HEIGHT, SCREEN_HEIGHT, WIDEST_GAP};
use crate::player::{Player, PlayerView};
use crate::random::range;

verus! {

/// One cell of the playfield, by screen column and row.
#[derive(Clone, Copy, Debug, PartialEq, Eq)]
pub struct Cell {
    pub x: i32,
    pub y: i32,
}

/// A wall one column wide, solid but for a gap.
#[derive(Clone, Copy, Debug, PartialEq, Eq)]
pub struct Obstacle {
    /// The column in which the wall stands.
    pub x: i32,
    /// The row at the centre of the gap.
    pub gap_y: i32,
    /// The height of the gap, in rows.
    pub size: i32,
}

/// An `Obstacle` over the mathematical integers.
pub struct ObstacleView {
    pub x: int,
    pub gap_y: int,
    pub size: int,
}

impl View for Obstacle {
    type V = ObstacleView;

    open spec fn view(&self) -> ObstacleView {
        ObstacleView { x: self.x as int, gap_y: self.gap_y as int, size: self.size as int }
    }
}

/// The height of the gap of a wall that is made at `score`: one row less for
/// every point, but never less than `NARROWEST_GAP`.
pub open spec fn gap_size(score: int) -> int {
    if WIDEST_GAP - score > NARROWEST_GAP {
        WIDEST_GAP - score
    } else {
        NARROWEST_GAP as int
    }
}

/// The rows in which the centre of a gap can lie: from a fifth of the
/// playfield's height up to, but not including, half of it.
pub open spec fn in_gap_band(gap_y: int) -> bool {
    SCREEN_HEIGHT / 5 <= gap_y < SCREEN_HEIGHT / 2
}

impl ObstacleView {
    /// The wall in column `x` with its gap centred on row `gap_y`, as it is
    /// made at `score`.
    pub open spec fn spawned(x: int, gap_y: int, score: int) -> ObstacleView {
        ObstacleView { x, gap_y, size: gap_size(score) }
    }

    /// What a well-formed wall keeps to: a gap of a height that `gap_size`
    /// can give, centred in the band.
    pub open spec fn wf(self) -> bool {
        &&& NARROWEST_GAP <= self.size <= WIDEST_GAP
        &&& in_gap_band(self.gap_y)
    }

    /// Half the height of the gap, rounded down.
    pub open spec fn half_size(self) -> int {
        self.size / 2
    }

    /// The first row of the gap.
    pub open spec fn gap_top(self) -> int {
        self.gap_y - self.half_size()
    }

    /// The row below the gap where the wall goes on.
    pub open spec fn gap_bottom(self) -> int {
        self.gap_y + self.half_size()
    }

    /// Whether the dragon strikes the wall: it is in the wall's column, and
    /// higher than the top of row `gap_top` or lower than the top of row
    /// `gap_bottom`.
    pub open spec fn hits(self, player: PlayerView) -> bool {
        &&& player.x == self.x
        &&& (player.y < self.gap_top() * ROW_HEIGHT
            || player.y > self.gap_bottom() * ROW_HEIGHT)
    }

    /// The wall's cells in screen column `column`, in the order in which they
    /// are drawn: the run above the gap from the top row down, then the run
    /// from `gap_bottom` down to the last row.
    pub open spec fn walls(self, column: i32) -> Seq<Cell> {
        let above = Seq::new(
            self.gap_top() as nat,
            |row: int| Cell { x: column, y: row as i32 },
        );
        let below = Seq::new(
            (SCREEN_HEIGHT - self.gap_bottom()) as nat,
            |i: int| Cell { x: column, y: (self.gap_bottom() + i) as i32 },
        );
        above + below
    }
}

/// A gap is never lower than `NARROWEST_GAP` nor higher than `WIDEST_GAP`,
/// and from the score at which it reaches `NARROWEST_GAP` on it stays there.
pub proof fn gap_never_closes(score: nat)
    ensures
        gap_size(score as int) >= NARROWEST_GAP,
        score >= WIDEST_GAP - NARROWEST_GAP ==> gap_size(score as int) == NARROWEST_GAP,
        gap_size(score as int) <= WIDEST_GAP,
{
}

/// A wall can only be struck in its own column: wherever else the dragon is,
/// and at whatever height, it does not hit.
pub proof fn no_hit_off_column(obstacle: ObstacleView, player: PlayerView)
    requires
        player.x != obstacle.x,
    ensures
        !obstacle.hits(player),
{
}

/// A dragon hits exactly when it is in the wall's column and its height is
/// strictly outside the span from the top of row `gap_top` to the top of row
/// `gap_bottom`; on either end of the span it does not hit.
pub proof fn hit_is_outside_the_gap(obstacle: ObstacleView, player: PlayerView)
    ensures
        obstacle.hits(player) <==> player.x == obstacle.x && !(obstacle.gap_top() * ROW_HEIGHT
            <= player.y <= obstacle.gap_bottom() * ROW_HEIGHT),
{
}

impl Obstacle {
    /// See `ObstacleView::wf`.
    pub open spec fn wf(self) -> bool {
        self@.wf()
    }

    /// The wall in column `x` for a game at `score`, with its gap centred on
    /// row `gap_y`.
    pub fn with_gap(x: i32, gap_y: i32, score: u32) -> (obstacle: Obstacle)
        requires
            in_gap_band(gap_y as int),
        ensures
            obstacle@ == ObstacleView::spawned(x as int, gap_y as int, score as int),
            obstacle.wf(),
    {
        let size: i32 = if score < (WIDEST_GAP - NARROWEST_GAP) as u32 {
            WIDEST_GAP - score as i32
        } else {
            NARROWEST_GAP
        };
        Obstacle { x, gap_y, size }
    }

    /// A new wall in column `x` for a game at `score`. The row of its gap is
    /// drawn at random from the band.
    pub fn new(x: i32, score: u32) -> (obstacle: Obstacle)
        ensures
            obstacle@ == ObstacleView::spawned(x as int, obstacle.gap_y as int, score as int),
            in_gap_band(obstacle.gap_y as int),
            obstacle.wf(),
            obstacle.size >= NARROWEST_GAP,
            score >= WIDEST_GAP - NARROWEST_GAP ==> obstacle.size == NARROWEST_GAP,
    {
        let mut random = RandomNumberGenerator::new();
        let gap_y: i32 = range(&mut random, SCREEN_HEIGHT / 5, SCREEN_HEIGHT / 2);
        Obstacle::with_gap(x, gap_y, score)
    }

    /// The cells of the wall as a player in column `player_x` sees them: in
    /// screen column `x - player_x`, every row but those of the gap.
    pub fn render(&mut self, player_x: i32) -> (cells: Vec<Cell>)
        requires
            old(self).wf(),
            i32::MIN <= old(self).x - player_x <= i32::MAX,
        ensures
            *final(self) == *old(self),
            cells@ == old(self)@.walls((old(self).x - player_x) as i32),
    {
        let screen_x: i32 = self.x - player_x;
        let half_size: i32 = self.size / 2;
        let mut cells: Vec<Cell> = Vec::new();

        let mut y: i32 = 0;
        while y < self.gap_y - half_size
            invariant
                self.wf(),
                half_size == self@.half_size(),
                0 <= y <= self@.gap_top(),
                cells@ =~= Seq::new(y as nat, |row: int| Cell { x: screen_x, y: row as i32 }),
            decreases self@.gap_top() - y,
        {
            cells.push(Cell { x: screen_x, y });
            y += 1;
        }

        let ghost upper = cells@;
        let mut y: i32 = self.gap_y + half_size;
        while y < SCREEN_HEIGHT
            invariant
                self.wf(),
                half_size == self@.half_size(),
                self@.gap_bottom() <= y <= SCREEN_HEIGHT,
                cells@ =~= upper + Seq::new(
                    (y - self@.gap_bottom()) as nat,
                    |i: int| Cell { x: screen_x, y: (self@.gap_bottom() + i) as i32 },
                ),
            decreases SCREEN_HEIGHT - y,
        {
            cells.push(Cell { x: screen_x, y });
            y += 1;
        }
        cells
    }

    /// Whether `player` strikes the wall.
    pub fn is_hit(&mut self, player: &Player) -> (hit: bool)
        requires
            old(self).wf(),
        ensures
            *final(self) == *old(self),
            hit == old(self)@.hits(player@),
            player.x != old(self).x ==> !hit,
    {
        let half_size: i32 = self.size / 2;
        let does_x_match = player.x == self.x;
        let player_above_gap = player.y < (self.gap_y - half_size) * ROW_HEIGHT;
        let player_below_gap = player.y > (self.gap_y + half_size) * ROW_HEIGHT;

        does_x_match && (player_above_gap || player_below_gap)
    }
}

} // verus!
