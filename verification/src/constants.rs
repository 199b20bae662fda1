//! The fixed tuning of the game.
//!
//! Heights and vertical speeds are kept in tenths of a row, so that the
//! physics is exact integer arithmetic: gravity, the flap and the terminal
//! speed are all whole numbers of tenths. Columns and rows are whole cells.
//! Time is kept in nanoseconds.

use vstd::prelude::*;

verus! {

/// Width of the playfield, in columns.
pub const SCREEN_WIDTH: i32 = 40;

/// Height of the playfield, in rows.
pub const SCREEN_HEIGHT: i32 = 25;

/// The column in which the dragon starts.
pub const START_COLUMN: i32 = 5;

/// Time that has to pass before the next physics step, in nanoseconds.
pub const FRAME_DURATION: u32 = 75_000_000;

/// The glyphs of the dragon's wing cycle, one per animation frame.
pub const DRAGON_FRAMES: [u16; 6] = [64, 1, 2, 3, 2, 1];

/// The height of one row, in tenths of a row.
pub const ROW_HEIGHT: i32 = 10;

/// What a physics step adds to the vertical speed while the dragon is slower
/// than `TERMINAL_VELOCITY`, in tenths of a row per physics step.
pub const GRAVITY: i32 = 1;

/// The fastest that gravity makes the dragon fall, in tenths of a row per
/// physics step.
pub const TERMINAL_VELOCITY: i32 = 20;

/// The vertical speed right after a flap: upwards, in tenths of a row per
/// physics step.
pub const FLAP_VELOCITY: i32 = -9;

/// The gap of a wall at score 0, in rows; every point narrows it by one row.
pub const WIDEST_GAP: i32 = 10;

/// The narrowest gap that a wall can have, in rows.
pub const NARROWEST_GAP: i32 = 2;

} // verus!
