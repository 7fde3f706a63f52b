//! **LineChart** forms and plot geometry. Scaling the float samples to
//! pixels is done by the renderer; the segments between consecutive samples
//! are [`line_points`](crate::widgets::raster::line_points).

use vstd::prelude::*;

use crate::geom::Area;

verus! {

/// Visual form of a line chart.
#[derive(Debug, Clone, Copy, PartialEq, Eq, Structural)]
pub enum LineChartShape {
    /// `│` / `─` / `└` axes on the left and bottom (the default).
    Axes,
    /// No axes: the line fills the whole area.
    Bare,
}

impl Default for LineChartShape {
    fn default() -> (s: LineChartShape)
        ensures
            s == LineChartShape::Axes,
    {
        LineChartShape::Axes
    }
}

/// The plot area: with axes (and room for them) the area loses its left
/// column and bottom row; otherwise it is the whole area.
pub open spec fn plot_area_of(shape: LineChartShape, area: Area) -> Area {
    if shape == LineChartShape::Axes && area.width > 1 && area.height > 1 {
        Area { x: (area.x + 1) as u16, y: area.y, width: (area.width - 1) as u16, height: (area.height - 1) as u16 }
    } else {
        area
    }
}

impl LineChartShape {
    /// Whether this form draws axes.
    pub fn draws_axes(self) -> (b: bool)
        ensures
            b == (self == LineChartShape::Axes),
    {
        match self {
            LineChartShape::Axes => true,
            LineChartShape::Bare => false,
        }
    }

    /// The area the line is plotted in.
    pub fn plot_area(self, area: Area) -> (r: Area)
        requires
            area.x + area.width <= u16::MAX,
        ensures
            r == plot_area_of(self, area),
    {
        if self.draws_axes() && area.width > 1 && area.height > 1 {
            Area { x: area.x + 1, y: area.y, width: area.width - 1, height: area.height - 1 }
        } else {
            area
        }
    }
}

} // verus!
