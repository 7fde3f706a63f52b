//! **Badge**: a short status tag colored by its [`Level`].
//!
//! `Filled` paints ` TEXT ` in the background color on a level-colored band
//! across the row; `Outlined` draws `[ TEXT ]` centered in the level color.

use vstd::prelude::*;

use crate::text::push_str;
use crate::theme::{level_rgb, palette_of, Level, Rgb, Theme};

verus! {

/// Visual form of a [`Badge`].
#[derive(Debug, Clone, Copy, PartialEq, Eq, Structural)]
pub enum BadgeShape {
    /// Level color as the background, `bg` text (the default).
    Filled,
    /// Level-colored `[ text ]` on the normal background.
    Outlined,
}

impl Default for BadgeShape {
    fn default() -> (s: BadgeShape)
        ensures
            s == BadgeShape::Filled,
    {
        BadgeShape::Filled
    }
}

/// A status badge.
#[derive(Debug, Clone)]
pub struct Badge {
    /// Badge text.
    pub text: String,
    /// Severity; selects the color.
    pub level: Level,
    /// Visual form.
    pub shape: BadgeShape,
    /// Theme whose palette drives colors.
    pub theme: Theme,
}

impl Badge {
    /// A normal-level filled badge reading `text`.
    pub fn new(text: &str) -> (b: Badge)
        ensures
            b.text@ == text@,
            b.level == Level::Normal,
            b.shape == BadgeShape::Filled,
            b.theme == Theme::Cyberpunk,
    {
        Badge {
            text: String::from_str(text),
            level: Level::Normal,
            shape: BadgeShape::Filled,
            theme: Theme::Cyberpunk,
        }
    }

    /// Set the severity level.
    pub fn level(self, level: Level) -> (b: Badge)
        ensures
            b == (Badge { level, ..self }),
    {
        Badge { level, ..self }
    }

    /// Set the visual form.
    pub fn shape(self, shape: BadgeShape) -> (b: Badge)
        ensures
            b == (Badge { shape, ..self }),
    {
        Badge { shape, ..self }
    }

    /// Set the theme.
    pub fn theme(self, theme: Theme) -> (b: Badge)
        ensures
            b == (Badge { theme, ..self }),
    {
        Badge { theme, ..self }
    }

    /// The level color in the badge's theme.
    pub fn level_color(&self) -> (c: Rgb)
        ensures
            c == level_rgb(palette_of(self.theme), self.level),
    {
        self.level.color_in(self.theme.palette())
    }

    /// The badge text as drawn: ` TEXT ` (filled, from the left edge) or
    /// `[ TEXT ]` (outlined, centered).
    pub fn content(&self) -> (r: Vec<char>)
        ensures
            self.shape == BadgeShape::Filled ==> r@ == seq![' '] + self.text@ + seq![' '],
            self.shape == BadgeShape::Outlined ==> r@ == seq!['[', ' '] + self.text@ + seq![' ', ']'],
    {
        let mut r: Vec<char> = Vec::new();
        match self.shape {
            BadgeShape::Filled => {
                r.push(' ');
                push_str(&mut r, self.text.as_str());
                r.push(' ');
            },
            BadgeShape::Outlined => {
                r.push('[');
                r.push(' ');
                push_str(&mut r, self.text.as_str());
                r.push(' ');
                r.push(']');
            },
        }
        r
    }
}

} // verus!
