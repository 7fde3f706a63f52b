//! **PieChart** forms. The slice geometry (angles from float weights) is
//! computed by the renderer.

use vstd::prelude::*;

verus! {

/// Visual form of a pie chart.
#[derive(Debug, Clone, Copy, PartialEq, Eq, Structural)]
pub enum PieShape {
    /// Solid slices edge to edge (the default, and for now the only form).
    Filled,
}

impl Default for PieShape {
    fn default() -> (s: PieShape)
        ensures
            s == PieShape::Filled,
    {
        PieShape::Filled
    }
}

} // verus!
