//! **RadialGauge**: a 270° reactor dial.
//!
//! The eased dial value lives in the app-side state; this module holds the
//! widget configuration.

use vstd::prelude::*;

use crate::theme::Theme;

verus! {

/// Visual form of the dial.
#[derive(Debug, Clone, Copy, PartialEq, Eq, Structural)]
pub enum DialShape {
    /// A needle over the dial (the default).
    Needle,
    /// A filled arc up to the value.
    Arc,
    /// Lit rim ticks up to the value.
    Tick,
}

impl Default for DialShape {
    fn default() -> (s: DialShape)
        ensures
            s == DialShape::Needle,
    {
        DialShape::Needle
    }
}

/// A radial gauge.
#[derive(Debug, Clone)]
pub struct RadialGauge {
    /// Visual form.
    pub shape: DialShape,
    /// Theme whose palette drives colors.
    pub theme: Theme,
    /// Optional short caption drawn with the widget.
    pub label: Option<String>,
}

impl Default for RadialGauge {
    fn default() -> (w: RadialGauge)
        ensures
            w.shape == DialShape::Needle,
            w.theme == Theme::Cyberpunk,
            w.label is None,
    {
        RadialGauge { shape: DialShape::Needle, theme: Theme::Cyberpunk, label: None, }
    }
}

impl RadialGauge {
    /// A widget with the default configuration.
    pub fn new() -> (w: RadialGauge)
        ensures
            w.shape == DialShape::Needle,
            w.theme == Theme::Cyberpunk,
            w.label is None,
    {
        RadialGauge::default()
    }

    /// Set the visual form.
    pub fn shape(self, shape: DialShape) -> (w: RadialGauge)
        ensures
            w == (RadialGauge { shape, ..self }),
    {
        RadialGauge { shape, ..self }
    }

    /// Set the theme.
    pub fn theme(self, theme: Theme) -> (w: RadialGauge)
        ensures
            w == (RadialGauge { theme, ..self }),
    {
        RadialGauge { theme, ..self }
    }

    /// Attach a short caption.
    pub fn label(self, label: &str) -> (w: RadialGauge)
        ensures
            w.label matches Some(l) && l@ == label@,
            w.shape == self.shape,
            w.theme == self.theme,
    {
        RadialGauge { label: Some(String::from_str(label)), ..self }
    }
}

} // verus!
