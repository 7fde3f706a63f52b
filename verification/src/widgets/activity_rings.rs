//! **ActivityRings**: concentric multi-goal progress rings.
//!
//! `N` concentric arcs share a 270° sweep, each filling up to its own eased
//! value; ring 0 is the outermost band. The eased per-ring values live in the
//! app-side state; this module holds the widget configuration.

use vstd::prelude::*;

use crate::theme::Theme;

verus! {

/// Visual form of each ring.
#[derive(Debug, Clone, Copy, PartialEq, Eq, Structural)]
pub enum RingShape {
    /// A bare filled arc from the start angle to the value (the default).
    Arc,
    /// The filled arc over a full muted track.
    Track,
    /// Discrete rim ticks lit up to the value.
    Tick,
}

impl Default for RingShape {
    fn default() -> (s: RingShape)
        ensures
            s == RingShape::Arc,
    {
        RingShape::Arc
    }
}

/// Concentric multi-goal progress rings (ring count defaults to 3).
#[derive(Debug, Clone)]
pub struct ActivityRings {
    /// Number of concentric rings (at least 1).
    pub rings: usize,
    /// Visual form.
    pub shape: RingShape,
    /// Theme whose palette drives colors.
    pub theme: Theme,
    /// Optional short caption drawn with the widget.
    pub label: Option<String>,
}

impl Default for ActivityRings {
    fn default() -> (w: ActivityRings)
        ensures
            w.rings == 3,
            w.shape == RingShape::Arc,
            w.theme == Theme::Cyberpunk,
            w.label is None,
    {
        ActivityRings { rings: 3, shape: RingShape::Arc, theme: Theme::Cyberpunk, label: None, }
    }
}

impl ActivityRings {
    /// A widget with the default configuration.
    pub fn new() -> (w: ActivityRings)
        ensures
            w.rings == 3,
            w.shape == RingShape::Arc,
            w.theme == Theme::Cyberpunk,
            w.label is None,
    {
        ActivityRings::default()
    }

    /// Set `rings` (clamped to at least 1).
    pub fn rings(self, n: usize) -> (w: ActivityRings)
        ensures
            w == (ActivityRings { rings: if n >= 1 { n } else { 1 }, ..self }),
    {
        ActivityRings {
            rings: if n >= 1 {
                n
            } else {
                1
            },
            ..self
        }
    }

    /// Set the visual form.
    pub fn shape(self, shape: RingShape) -> (w: ActivityRings)
        ensures
            w == (ActivityRings { shape, ..self }),
    {
        ActivityRings { shape, ..self }
    }

    /// Set the theme.
    pub fn theme(self, theme: Theme) -> (w: ActivityRings)
        ensures
            w == (ActivityRings { theme, ..self }),
    {
        ActivityRings { theme, ..self }
    }

    /// Attach a short caption.
    pub fn label(self, label: &str) -> (w: ActivityRings)
        ensures
            w.label matches Some(l) && l@ == label@,
            w.rings == self.rings,
            w.shape == self.shape,
            w.theme == self.theme,
    {
        ActivityRings { label: Some(String::from_str(label)), ..self }
    }
}

} // verus!
