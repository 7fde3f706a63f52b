//! **Divider**: a horizontal rule, optionally with a centered label.

use vstd::prelude::*;

use crate::text::{push_prefix, push_repeat, repeat_char};
use crate::theme::Theme;

verus! {

/// The rule glyph.
pub const RULE_GLYPH: char = '─';

/// A horizontal rule.
#[derive(Debug, Clone)]
pub struct Divider {
    /// Optional label centered on the rule.
    pub label: Option<String>,
    /// Theme whose palette drives colors.
    pub theme: Theme,
}

impl Default for Divider {
    fn default() -> (d: Divider)
        ensures
            d.label is None,
            d.theme == Theme::Cyberpunk,
    {
        Divider { label: None, theme: Theme::Cyberpunk }
    }
}

/// The row a divider draws in `width` cells, with the label's start column
/// and length (the label clipped at the right edge, the rule on both sides).
pub open spec fn divider_row(label: Option<Seq<char>>, width: nat) -> (Seq<char>, nat, nat) {
    match label {
        None => (repeat_char('─', width), 0, 0),
        Some(l) => {
            let left = (if width >= l.len() { (width - l.len()) as nat } else { 0 }) / 2;
            let room = (width - left) as nat;
            let shown = if room >= l.len() { l } else { l.take(room as int) };
            (
                repeat_char('─', left) + shown + repeat_char('─', (room - shown.len()) as nat),
                left,
                shown.len(),
            )
        },
    }
}

impl Divider {
    /// A plain rule.
    pub fn new() -> (d: Divider)
        ensures
            d.label is None,
            d.theme == Theme::Cyberpunk,
    {
        Divider::default()
    }

    /// Set the centered label.
    pub fn label(self, label: &str) -> (d: Divider)
        ensures
            d.label matches Some(l) && l@ == label@,
            d.theme == self.theme,
    {
        Divider { label: Some(String::from_str(label)), ..self }
    }

    /// Set the theme.
    pub fn theme(self, theme: Theme) -> (d: Divider)
        ensures
            d.theme == theme,
            d.label == self.label,
    {
        Divider { theme, ..self }
    }

    /// The row text for `width` cells plus the label's `(start, len)`.
    pub fn row(&self, width: u16) -> (r: (Vec<char>, u16, u16))
        ensures
            ({
                let s = divider_row(
                    match self.label {
                        Some(l) => Some(l@),
                        None => None,
                    },
                    width as nat,
                );
                r.0@ == s.0 && r.1 == s.1 && r.2 == s.2
            }),
    {
        let mut r: Vec<char> = Vec::new();
        match &self.label {
            None => {
                push_repeat(&mut r, RULE_GLYPH, width as usize);
                (r, 0, 0)
            },
            Some(l) => {
                let n = crate::text::char_count(l.as_str());
                let w = width as usize;
                let left = (if w >= n {
                    w - n
                } else {
                    0
                }) / 2;
                let room = w - left;
                let shown = if room >= n {
                    n
                } else {
                    room
                };
                push_repeat(&mut r, RULE_GLYPH, left);
                push_prefix(&mut r, l.as_str(), room);
                push_repeat(&mut r, RULE_GLYPH, room - shown);
                (r, left as u16, shown as u16)
            },
        }
    }
}

} // verus!
