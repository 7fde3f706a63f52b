//! **AreaChart**: a filled time-series area under a sample curve.
//!
//! The rolling sample window lives in the app-side state; this module holds
//! the widget configuration.

use vstd::prelude::*;

use crate::theme::Theme;

verus! {

/// Visual form of the area.
#[derive(Debug, Clone, Copy, PartialEq, Eq, Structural)]
pub enum AreaShape {
    /// A dense solid fill under the curve (the default).
    Solid,
    /// A lighter dotted fill under the curve.
    Fill,
    /// The curve outline only.
    Line,
}

impl Default for AreaShape {
    fn default() -> (s: AreaShape)
        ensures
            s == AreaShape::Solid,
    {
        AreaShape::Solid
    }
}

/// A filled area chart over a rolling window (64 samples by default).
#[derive(Debug, Clone)]
pub struct AreaChart {
    /// Number of samples in the rolling window (at least 2).
    pub window: usize,
    /// Visual form.
    pub shape: AreaShape,
    /// Theme whose palette drives colors.
    pub theme: Theme,
    /// Optional short caption drawn with the widget.
    pub label: Option<String>,
}

impl Default for AreaChart {
    fn default() -> (w: AreaChart)
        ensures
            w.window == 64,
            w.shape == AreaShape::Solid,
            w.theme == Theme::Cyberpunk,
            w.label is None,
    {
        AreaChart { window: 64, shape: AreaShape::Solid, theme: Theme::Cyberpunk, label: None, }
    }
}

impl AreaChart {
    /// A widget with the default configuration.
    pub fn new() -> (w: AreaChart)
        ensures
            w.window == 64,
            w.shape == AreaShape::Solid,
            w.theme == Theme::Cyberpunk,
            w.label is None,
    {
        AreaChart::default()
    }

    /// Set `window` (clamped to at least 2).
    pub fn window(self, n: usize) -> (w: AreaChart)
        ensures
            w == (AreaChart { window: if n >= 2 { n } else { 2 }, ..self }),
    {
        AreaChart {
            window: if n >= 2 {
                n
            } else {
                2
            },
            ..self
        }
    }

    /// Set the visual form.
    pub fn shape(self, shape: AreaShape) -> (w: AreaChart)
        ensures
            w == (AreaChart { shape, ..self }),
    {
        AreaChart { shape, ..self }
    }

    /// Set the theme.
    pub fn theme(self, theme: Theme) -> (w: AreaChart)
        ensures
            w == (AreaChart { theme, ..self }),
    {
        AreaChart { theme, ..self }
    }

    /// Attach a short caption.
    pub fn label(self, label: &str) -> (w: AreaChart)
        ensures
            w.label matches Some(l) && l@ == label@,
            w.window == self.window,
            w.shape == self.shape,
            w.theme == self.theme,
    {
        AreaChart { label: Some(String::from_str(label)), ..self }
    }
}

} // verus!
