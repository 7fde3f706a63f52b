//! **CollapsiblePanel**: a bordered panel that folds to a one-row header.
//!
//! Collapsed it reads `▸ TITLE`; expanded it is a bordered frame titled
//! ` ▾ TITLE `. `Enter` toggles.

use vstd::prelude::*;

use crate::geom::{bordered, bordered_inner, empty_area, Area};
use crate::keys::{KeyCode, KeyEvent};
use crate::text::{chars_of, push_char};
use crate::theme::Theme;

verus! {

/// Collapsed marker of the default shape.
pub const MARK_COLLAPSED: char = '▸';

/// Expanded marker of the default shape.
pub const MARK_EXPANDED: char = '▾';

/// Marker-glyph pair of a [`CollapsiblePanel`].
#[derive(Debug, Clone, Copy, PartialEq, Eq, Structural)]
pub enum CollapsibleShape {
    /// `▸` / `▾` (the default).
    Chevron,
    /// `+` / `−`.
    Plus,
    /// `►` / `▼`.
    Arrow,
}

impl Default for CollapsibleShape {
    fn default() -> (s: CollapsibleShape)
        ensures
            s == CollapsibleShape::Chevron,
    {
        CollapsibleShape::Chevron
    }
}

/// The marker of each shape, collapsed or expanded.
pub open spec fn collapsible_marker(s: CollapsibleShape, collapsed: bool) -> char {
    match s {
        CollapsibleShape::Chevron => if collapsed { '▸' } else { '▾' },
        CollapsibleShape::Plus => if collapsed { '+' } else { '−' },
        CollapsibleShape::Arrow => if collapsed { '►' } else { '▼' },
    }
}

impl CollapsibleShape {
    /// The marker glyph for the collapsed / expanded state.
    pub fn marker(self, collapsed: bool) -> (c: char)
        ensures
            c == collapsible_marker(self, collapsed),
    {
        match self {
            CollapsibleShape::Chevron => if collapsed {
                MARK_COLLAPSED
            } else {
                MARK_EXPANDED
            },
            CollapsibleShape::Plus => if collapsed {
                '+'
            } else {
                '−'
            },
            CollapsibleShape::Arrow => if collapsed {
                '►'
            } else {
                '▼'
            },
        }
    }
}

/// A collapsible, titled panel.
#[derive(Debug, Clone)]
pub struct CollapsiblePanel {
    /// Header / frame title.
    pub title: String,
    /// Marker-glyph form.
    pub shape: CollapsibleShape,
    /// Theme whose palette drives colors.
    pub theme: Theme,
}

impl CollapsiblePanel {
    /// A panel titled `title`, default shape and theme.
    pub fn new(title: &str) -> (p: CollapsiblePanel)
        ensures
            p.title@ == title@,
            p.shape == CollapsibleShape::Chevron,
            p.theme == Theme::Cyberpunk,
    {
        CollapsiblePanel {
            title: String::from_str(title),
            shape: CollapsibleShape::Chevron,
            theme: Theme::Cyberpunk,
        }
    }

    /// Set the marker-glyph form.
    pub fn shape(self, shape: CollapsibleShape) -> (p: CollapsiblePanel)
        ensures
            p == (CollapsiblePanel { shape, ..self }),
    {
        CollapsiblePanel { shape, ..self }
    }

    /// Set the theme.
    pub fn theme(self, theme: Theme) -> (p: CollapsiblePanel)
        ensures
            p == (CollapsiblePanel { theme, ..self }),
    {
        CollapsiblePanel { theme, ..self }
    }

    /// `Enter` toggles the panel; other keys are ignored.
    pub fn handle_key(&self, state: &mut CollapsiblePanelState, key: KeyEvent)
        ensures
            key.code == KeyCode::Enter ==> final(state).collapsed == !old(state).collapsed,
            key.code != KeyCode::Enter ==> final(state).collapsed == old(state).collapsed,
    {
        if key.code == KeyCode::Enter {
            state.collapsed = !state.collapsed;
        }
    }

    /// The interior available to content: nothing while collapsed, the area
    /// inside the border otherwise.
    pub fn inner(&self, area: Area, state: &CollapsiblePanelState) -> (r: Area)
        ensures
            state.collapsed ==> r == empty_area(),
            !state.collapsed ==> r == bordered_inner(area),
    {
        if state.collapsed {
            Area { x: 0, y: 0, width: 0, height: 0 }
        } else {
            bordered(area)
        }
    }

    /// The header text: `<marker> <title>` when collapsed (drawn on the first
    /// row), ` <marker> <title> ` as the frame title when expanded.
    pub fn header(&self, state: &CollapsiblePanelState) -> (s: String)
        ensures
            state.collapsed ==> s@ == seq![collapsible_marker(self.shape, true), ' '] + self.title@,
            !state.collapsed ==> s@ == seq![' ', collapsible_marker(self.shape, false), ' ']
                + self.title@ + seq![' '],
    {
        let marker = self.shape.marker(state.collapsed);
        let mut s = String::new();
        if !state.collapsed {
            push_char(&mut s, ' ');
        }
        push_char(&mut s, marker);
        push_char(&mut s, ' ');
        s.append(self.title.as_str());
        if !state.collapsed {
            push_char(&mut s, ' ');
        }
        s
    }
}

/// Mutable state for [`CollapsiblePanel`].
#[derive(Debug, Clone, Copy)]
pub struct CollapsiblePanelState {
    /// Whether the panel is folded to its header row.
    pub collapsed: bool,
}

impl Default for CollapsiblePanelState {
    fn default() -> (s: CollapsiblePanelState)
        ensures
            !s.collapsed,
    {
        CollapsiblePanelState { collapsed: false }
    }
}

impl CollapsiblePanelState {
    /// An expanded panel state.
    pub fn new() -> (s: CollapsiblePanelState)
        ensures
            !s.collapsed,
    {
        CollapsiblePanelState { collapsed: false }
    }

    /// Flip between collapsed and expanded.
    pub fn toggle(&mut self)
        ensures
            final(self).collapsed == !old(self).collapsed,
    {
        self.collapsed = !self.collapsed;
    }
}

} // verus!
