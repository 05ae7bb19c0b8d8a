//! Rules engine of a falling-block puzzle game.
//!
//! The crate owns the playfield grid, the active piece, the shuffled-refill
//! randomizer, collision and rotation rules, line clearing, scoring, and the
//! scene transition between a home screen and active play.  Geometry is kept
//! in exact integer coordinates (quarters of a world unit, quarters of a grid
//! cell) so that every rule is stated and proved precisely.  Rendering,
//! window management and event plumbing stay outside: the scenes only emit
//! abstract draw requests.

pub mod bag;
pub mod board;
pub mod draw;
pub mod home_scene;
pub mod input;
pub mod level_scene;
pub mod piece;
pub mod rect;
pub mod rgb;
pub mod scene;
pub mod vector2;

use vstd::prelude::*;

verus! {

/// A cell index on the board grid; `(0, 0)` is the bottom-left cell.
#[derive(Clone, Copy, Debug, PartialEq, Eq, Structural)]
pub struct GridPos {
    /// Column index.
    pub x: i16,
    /// Row index.
    pub y: i16,
}

impl GridPos {
    /// Builds a grid position from its column and row index.
    pub fn new(x: i16, y: i16) -> (r: GridPos)
        ensures
            r.x == x,
            r.y == y,
    {
        GridPos { x, y }
    }
}

/// The two top-level modes of the game.
#[derive(Clone, Copy, Debug, PartialEq, Eq, Structural)]
pub enum Scene {
    /// The home screen with the start button.
    HomeScene,
    /// Active play.
    LevelScene,
}

} // verus!
