//! **RadialBarChart**: bars radiating from a hub.
//!
//! The eased bar values live in the app-side state; this module holds the
//! widget configuration.

use vstd::prelude::*;

use crate::theme::Theme;

verus! {

/// Visual form of the bars.
#[derive(Debug, Clone, Copy, PartialEq, Eq, Structural)]
pub enum RBarShape {
    /// Wedge bars (the default).
    Bar,
    /// Arcs at each bar's radius.
    Arc,
    /// Single spokes.
    Needle,
}

impl Default for RBarShape {
    fn default() -> (s: RBarShape)
        ensures
            s == RBarShape::Bar,
    {
        RBarShape::Bar
    }
}

/// A radial bar chart (6 bars by default).
#[derive(Debug, Clone)]
pub struct RadialBarChart {
    /// Number of bars (at least 1).
    pub bars: usize,
    /// Visual form.
    pub shape: RBarShape,
    /// Theme whose palette drives colors.
    pub theme: Theme,
    /// Optional short caption drawn with the widget.
    pub label: Option<String>,
}

impl Default for RadialBarChart {
    fn default() -> (w: RadialBarChart)
        ensures
            w.bars == 6,
            w.shape == RBarShape::Bar,
            w.theme == Theme::Cyberpunk,
            w.label is None,
    {
        RadialBarChart { bars: 6, shape: RBarShape::Bar, theme: Theme::Cyberpunk, label: None, }
    }
}

impl RadialBarChart {
    /// A widget with the default configuration.
    pub fn new() -> (w: RadialBarChart)
        ensures
            w.bars == 6,
            w.shape == RBarShape::Bar,
            w.theme == Theme::Cyberpunk,
            w.label is None,
    {
        RadialBarChart::default()
    }

    /// Set `bars` (clamped to at least 1).
    pub fn bars(self, n: usize) -> (w: RadialBarChart)
        ensures
            w == (RadialBarChart { bars: if n >= 1 { n } else { 1 }, ..self }),
    {
        RadialBarChart {
            bars: if n >= 1 {
                n
            } else {
                1
            },
            ..self
        }
    }

    /// Set the visual form.
    pub fn shape(self, shape: RBarShape) -> (w: RadialBarChart)
        ensures
            w == (RadialBarChart { shape, ..self }),
    {
        RadialBarChart { shape, ..self }
    }

    /// Set the theme.
    pub fn theme(self, theme: Theme) -> (w: RadialBarChart)
        ensures
            w == (RadialBarChart { theme, ..self }),
    {
        RadialBarChart { theme, ..self }
    }

    /// Attach a short caption.
    pub fn label(self, label: &str) -> (w: RadialBarChart)
        ensures
            w.label matches Some(l) && l@ == label@,
            w.bars == self.bars,
            w.shape == self.shape,
            w.theme == self.theme,
    {
        RadialBarChart { label: Some(String::from_str(label)), ..self }
    }
}

} // verus!
