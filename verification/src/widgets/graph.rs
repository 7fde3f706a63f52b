//! **Graph** node glyph forms: which pixels of the Braille canvas a node
//! lights. Node placement (from normalized float positions) is done by the
//! renderer; edges are [`line_points`](crate::widgets::raster::line_points)
//! between node pixels.

use vstd::prelude::*;

verus! {

/// Visual form of a graph's nodes.
#[derive(Debug, Clone, Copy, PartialEq, Eq, Structural)]
pub enum GraphShape {
    /// A single pixel per node (the default).
    Dot,
    /// A five-pixel cross (`+`) per node.
    Cross,
}

impl Default for GraphShape {
    fn default() -> (s: GraphShape)
        ensures
            s == GraphShape::Dot,
    {
        GraphShape::Dot
    }
}

/// The pixels a node at `(x, y)` lights: the pixel itself, then, for a
/// cross, its right, left, lower and upper neighbours.
pub open spec fn node_pixels_of(shape: GraphShape, x: int, y: int) -> Seq<(int, int)> {
    match shape {
        GraphShape::Dot => seq![(x, y)],
        GraphShape::Cross => seq![(x, y), (x + 1, y), (x - 1, y), (x, y + 1), (x, y - 1)],
    }
}

impl GraphShape {
    /// The pixels lit by a node at `(x, y)`.
    pub fn node_pixels(self, x: i64, y: i64) -> (v: Vec<(i64, i64)>)
        requires
            i64::MIN < x < i64::MAX,
            i64::MIN < y < i64::MAX,
        ensures
            v@.len() == node_pixels_of(self, x as int, y as int).len(),
            forall|i: int|
                0 <= i < v@.len() ==> (#[trigger] v@[i].0 as int, v@[i].1 as int) == node_pixels_of(
                    self,
                    x as int,
                    y as int,
                )[i],
    {
        match self {
            GraphShape::Dot => vec![(x, y)],
            GraphShape::Cross => vec![(x, y), (x + 1, y), (x - 1, y), (x, y + 1), (x, y - 1)],
        }
    }
}

} // verus!
