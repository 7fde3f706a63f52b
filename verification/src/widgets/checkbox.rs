//! **Checkbox**: a labelled boolean box, `[✓] label`, centered in its area.

use vstd::prelude::*;

use crate::text::{push_str};
use crate::theme::Theme;

verus! {

/// Check mark of the default shape.
pub const MARK_CHECK: char = '✓';

/// Cross mark of the cross shape.
pub const MARK_CROSS: char = '✕';

/// Dot mark of the cross shape's unchecked state.
pub const MARK_DOT: char = '·';

/// Mark-glyph pair of a [`Checkbox`].
#[derive(Debug, Clone, Copy, PartialEq, Eq, Structural)]
pub enum CheckboxShape {
    /// `✓` checked, blank unchecked (the default).
    Check,
    /// `✕` checked, `·` unchecked.
    Cross,
    /// `■` checked, `□` unchecked.
    Block,
}

impl Default for CheckboxShape {
    fn default() -> (s: CheckboxShape)
        ensures
            s == CheckboxShape::Check,
    {
        CheckboxShape::Check
    }
}

/// The mark glyph of each shape for a checked state.
pub open spec fn checkbox_mark(s: CheckboxShape, checked: bool) -> char {
    match s {
        CheckboxShape::Check => if checked { '✓' } else { ' ' },
        CheckboxShape::Cross => if checked { '✕' } else { '·' },
        CheckboxShape::Block => if checked { '■' } else { '□' },
    }
}

impl CheckboxShape {
    /// The mark glyph for the given checked state.
    pub fn mark(self, checked: bool) -> (c: char)
        ensures
            c == checkbox_mark(self, checked),
    {
        match self {
            CheckboxShape::Check => if checked {
                MARK_CHECK
            } else {
                ' '
            },
            CheckboxShape::Cross => if checked {
                MARK_CROSS
            } else {
                MARK_DOT
            },
            CheckboxShape::Block => if checked {
                '■'
            } else {
                '□'
            },
        }
    }
}

/// A sci-fi checkbox.
#[derive(Debug, Clone)]
pub struct Checkbox {
    /// Text after the box.
    pub label: String,
    /// Whether the box is checked.
    pub checked: bool,
    /// Mark-glyph form.
    pub shape: CheckboxShape,
    /// Theme whose palette drives colors.
    pub theme: Theme,
}

impl Default for Checkbox {
    fn default() -> (c: Checkbox)
        ensures
            c.label@.len() == 0,
            !c.checked,
            c.shape == CheckboxShape::Check,
            c.theme == Theme::Cyberpunk,
    {
        Checkbox {
            label: String::new(),
            checked: false,
            shape: CheckboxShape::Check,
            theme: Theme::Cyberpunk,
        }
    }
}

impl Checkbox {
    /// The stylesheet state class of the box (the `Toggle` node's
    /// vocabulary): `on` when checked, `off` otherwise.
    pub fn state_classes(&self) -> (c: &'static [&'static str])
        ensures
            c@.len() == 1,
            c@[0]@ == (if self.checked { "on"@ } else { "off"@ }),
    {
        if self.checked {
            &["on"]
        } else {
            &["off"]
        }
    }

    /// An unchecked box labelled `label`.
    pub fn new(label: &str) -> (c: Checkbox)
        ensures
            c.label@ == label@,
            !c.checked,
            c.shape == CheckboxShape::Check,
            c.theme == Theme::Cyberpunk,
    {
        Checkbox {
            label: String::from_str(label),
            checked: false,
            shape: CheckboxShape::Check,
            theme: Theme::Cyberpunk,
        }
    }

    /// Set the checked state.
    pub fn checked(self, checked: bool) -> (c: Checkbox)
        ensures
            c == (Checkbox { checked, ..self }),
    {
        Checkbox { checked, ..self }
    }

    /// Set the mark-glyph form.
    pub fn shape(self, shape: CheckboxShape) -> (c: Checkbox)
        ensures
            c == (Checkbox { shape, ..self }),
    {
        Checkbox { shape, ..self }
    }

    /// Set the theme.
    pub fn theme(self, theme: Theme) -> (c: Checkbox)
        ensures
            c == (Checkbox { theme, ..self }),
    {
        Checkbox { theme, ..self }
    }

    /// The readout, `[<mark>] <label>`.
    pub fn content(&self) -> (r: Vec<char>)
        ensures
            r@ == seq!['[', checkbox_mark(self.shape, self.checked), ']', ' '] + self.label@,
    {
        let mut r: Vec<char> = Vec::new();
        r.push('[');
        r.push(self.shape.mark(self.checked));
        r.push(']');
        r.push(' ');
        push_str(&mut r, self.label.as_str());
        r
    }
}

} // verus!
