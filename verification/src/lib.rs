//! A verified side-scrolling reflex game: a bird must pass through
//! procedurally generated gap obstacles by timing upward impulses against
//! constant downward acceleration.
//!
//! The library holds the whole simulation: bird physics, obstacle spawning
//! and collision, and the menu/playing/ending session state machine. A thin
//! unverified shell drives it from a terminal window.

use vstd::prelude::*;

pub mod bird;
pub mod obstacle;
pub mod session;

verus! {

/// One character cell of the presentation surface, by draw column and row.
/// The library reduces everything it renders to a list of these; the
/// unverified shell turns each into a glyph on the terminal.
#[derive(Clone, Copy, Debug, PartialEq, Eq, Structural)]
pub struct Cell {
    pub x: i32,
    pub y: i32,
}

/// Width of the world in columns; a fresh obstacle spawns one width ahead.
pub const SCREEN_WIDTH: i32 = 80;

/// Height of the world in rows; falling past it ends the session.
pub const SCREEN_HEIGHT: i32 = 60;

/// Milliseconds that must accumulate before one physics step is applied.
pub const FRAME_DURATION: u64 = 75;

/// Gap height an obstacle spawned at `score` gets: it narrows linearly from
/// the base of 20 as the score rises and is floored at 2.
pub open spec fn gap_size_at(score: int) -> int {
    if 20 - score >= 2 {
        20 - score
    } else {
        2
    }
}

/// The gap never narrows below its floor of 2 once the score reaches 18.
pub proof fn lemma_gap_size_floor(score: int)
    requires
        score >= 18,
    ensures
        gap_size_at(score) == 2,
{
}

/// Below a score of 18 the gap narrows linearly: exactly `20 - score`.
pub proof fn lemma_gap_size_linear(score: int)
    requires
        score < 18,
    ensures
        gap_size_at(score) == 20 - score,
{
}

/// Difficulty only rises with progress: a higher score never gets a wider
/// gap, it gets a narrower one until the floor plateaus.
pub proof fn lemma_gap_size_monotone(lower: int, higher: int)
    requires
        lower <= higher,
    ensures
        gap_size_at(lower) >= gap_size_at(higher),
{
}

} // verus!
