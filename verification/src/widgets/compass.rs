//! **Compass**: a heading rose with an eased needle.
//!
//! The eased heading lives in the app-side state; this module holds the widget
//! configuration.

use vstd::prelude::*;

use crate::theme::Theme;

verus! {

/// Visual form of the heading pointer.
#[derive(Debug, Clone, Copy, PartialEq, Eq, Structural)]
pub enum CompassShape {
    /// A thin needle (the default).
    Needle,
    /// A filled arrow head.
    Arrow,
    /// A chevron pointer.
    Chevron,
}

impl Default for CompassShape {
    fn default() -> (s: CompassShape)
        ensures
            s == CompassShape::Needle,
    {
        CompassShape::Needle
    }
}

/// A compass rose.
#[derive(Debug, Clone)]
pub struct Compass {
    /// Visual form.
    pub shape: CompassShape,
    /// Theme whose palette drives colors.
    pub theme: Theme,
    /// Optional short caption drawn with the widget.
    pub label: Option<String>,
}

impl Default for Compass {
    fn default() -> (w: Compass)
        ensures
            w.shape == CompassShape::Needle,
            w.theme == Theme::Cyberpunk,
            w.label is None,
    {
        Compass { shape: CompassShape::Needle, theme: Theme::Cyberpunk, label: None, }
    }
}

impl Compass {
    /// A widget with the default configuration.
    pub fn new() -> (w: Compass)
        ensures
            w.shape == CompassShape::Needle,
            w.theme == Theme::Cyberpunk,
            w.label is None,
    {
        Compass::default()
    }

    /// Set the visual form.
    pub fn shape(self, shape: CompassShape) -> (w: Compass)
        ensures
            w == (Compass { shape, ..self }),
    {
        Compass { shape, ..self }
    }

    /// Set the theme.
    pub fn theme(self, theme: Theme) -> (w: Compass)
        ensures
            w == (Compass { theme, ..self }),
    {
        Compass { theme, ..self }
    }

    /// Attach a short caption.
    pub fn label(self, label: &str) -> (w: Compass)
        ensures
            w.label matches Some(l) && l@ == label@,
            w.shape == self.shape,
            w.theme == self.theme,
    {
        Compass { label: Some(String::from_str(label)), ..self }
    }
}

} // verus!
