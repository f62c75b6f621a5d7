use vstd::prelude::*;

verus! {

/// A position on the character grid: column `x`, row `y`.
///
/// Coordinates are non-negative and bounded by the viewport size
/// `(width, height)`; a cell at `(x, y)` lies inside a viewport when
/// `x < width` and `y < height`.
#[derive(Clone, Copy, Debug, PartialEq, Eq, Hash, Structural)]
pub struct Coord {
    pub x: u16,
    pub y: u16,
}

} // verus!
