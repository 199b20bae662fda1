//! The rules of a small side-scrolling arcade game: a dragon falls under
//! gravity, flaps to climb, and has to fly through the gap of each wall that
//! comes towards it.
//!
//! The crate holds the game's logic only. Every function carries a contract
//! that Verus proves; drawing, key polling and the window belong to the
//! program built around it.
//!
//! - `constants`: the size of the playfield and the tuning of the physics.
//! - `player`: the dragon, its physics step and its flap.
//! - `obstacle`: the wall, the rule for its gap, and the hit test.
//! - `game`: the session and what one callback of the game loop does to it.
//! - `random`: the random number generator of `bracket_lib`, from which a
//!   new wall takes the row of its gap. What this module says of the
//!   generator is taken on trust; everything else is proved.

pub mod constants;
pub mod player;
pub mod obstacle;
pub mod random;
pub mod game;
