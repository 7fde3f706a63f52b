//! **DonutChart**: proportional slices around a ring.
//!
//! The eased slice values live in the app-side state; this module holds the
//! widget configuration.

use vstd::prelude::*;

use crate::theme::Theme;

verus! {

/// Visual form of the slices.
#[derive(Debug, Clone, Copy, PartialEq, Eq, Structural)]
pub enum DonutShape {
    /// Thin slice arcs (the default).
    Arc,
    /// Thick slice bands.
    Thick,
    /// Discrete ticks per slice.
    Tick,
}

impl Default for DonutShape {
    fn default() -> (s: DonutShape)
        ensures
            s == DonutShape::Arc,
    {
        DonutShape::Arc
    }
}

/// A donut chart (5 slices by default).
#[derive(Debug, Clone)]
pub struct DonutChart {
    /// Number of slices (at least 1).
    pub slices: usize,
    /// Visual form.
    pub shape: DonutShape,
    /// Theme whose palette drives colors.
    pub theme: Theme,
    /// Optional short caption drawn with the widget.
    pub label: Option<String>,
}

impl Default for DonutChart {
    fn default() -> (w: DonutChart)
        ensures
            w.slices == 5,
            w.shape == DonutShape::Arc,
            w.theme == Theme::Cyberpunk,
            w.label is None,
    {
        DonutChart { slices: 5, shape: DonutShape::Arc, theme: Theme::Cyberpunk, label: None, }
    }
}

impl DonutChart {
    /// A widget with the default configuration.
    pub fn new() -> (w: DonutChart)
        ensures
            w.slices == 5,
            w.shape == DonutShape::Arc,
            w.theme == Theme::Cyberpunk,
            w.label is None,
    {
        DonutChart::default()
    }

    /// Set `slices` (clamped to at least 1).
    pub fn slices(self, n: usize) -> (w: DonutChart)
        ensures
            w == (DonutChart { slices: if n >= 1 { n } else { 1 }, ..self }),
    {
        DonutChart {
            slices: if n >= 1 {
                n
            } else {
                1
            },
            ..self
        }
    }

    /// Set the visual form.
    pub fn shape(self, shape: DonutShape) -> (w: DonutChart)
        ensures
            w == (DonutChart { shape, ..self }),
    {
        DonutChart { shape, ..self }
    }

    /// Set the theme.
    pub fn theme(self, theme: Theme) -> (w: DonutChart)
        ensures
            w == (DonutChart { theme, ..self }),
    {
        DonutChart { theme, ..self }
    }

    /// Attach a short caption.
    pub fn label(self, label: &str) -> (w: DonutChart)
        ensures
            w.label matches Some(l) && l@ == label@,
            w.slices == self.slices,
            w.shape == self.shape,
            w.theme == self.theme,
    {
        DonutChart { label: Some(String::from_str(label)), ..self }
    }
}

} // verus!
