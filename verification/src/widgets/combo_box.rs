//! **ComboBox**: an editable text field with a drop-down of suggestions.
//!
//! Typing edits the value (`Backspace` deletes); `Enter` opens the option list
//! or, while open, copies the hovered option into the value and closes it;
//! `Up` / `Down` move the hover while open; `Esc` closes.

use vstd::prelude::*;

use crate::keys::{KeyCode, KeyEvent};
use crate::text::{pop_char, push_char, strings_of};
use crate::theme::Theme;

verus! {

/// Caret drawn after the value.
pub const CARET: char = '▾';

/// A sci-fi combo box.
#[derive(Debug, Clone)]
pub struct ComboBox {
    /// The suggested options.
    pub options: Vec<String>,
    /// Theme whose palette drives colors.
    pub theme: Theme,
}

/// Mutable state for [`ComboBox`].
#[derive(Debug, Clone)]
pub struct ComboBoxState {
    /// The edited value.
    pub value: String,
    /// Whether the option list is open.
    pub open: bool,
    /// Index of the hovered option while open.
    pub hover: usize,
}

impl ComboBox {
    /// A combo box over the given options, default theme.
    pub fn new(options: &[&str]) -> (c: ComboBox)
        ensures
            c.options@.len() == options@.len(),
            forall|i: int| 0 <= i < options@.len() ==> (#[trigger] c.options@[i])@ == options@[i]@,
            c.theme == Theme::Cyberpunk,
    {
        ComboBox { options: strings_of(options), theme: Theme::Cyberpunk }
    }

    /// Set the theme.
    pub fn theme(self, theme: Theme) -> (c: ComboBox)
        ensures
            c == (ComboBox { theme, ..self }),
    {
        ComboBox { theme, ..self }
    }

    /// Apply a key press:
    /// - an unmodified printable char is appended to the value;
    /// - `Backspace` removes the value's last char;
    /// - `Enter` with the list open and options present copies the hovered
    ///   option (clamped to the last) into the value and closes the list;
    ///   otherwise it opens the list with the hover on the first option;
    /// - `Esc` closes the list;
    /// - `Up` / `Down` move the hover one option (wrapping) while open.
    pub fn handle_key(&self, state: &mut ComboBoxState, key: KeyEvent)
        requires
            key.code == KeyCode::Up && old(state).open ==> old(state).hover + self.options@.len()
                <= usize::MAX,
            key.code == KeyCode::Down && old(state).open ==> old(state).hover < usize::MAX,
        ensures
            ({
                let n = self.options@.len();
                let o = *old(state);
                let f = *final(state);
                match key.code {
                    KeyCode::Char(c) => if key.no_modifiers {
                        f.value@ == o.value@.push(c) && f.open == o.open && f.hover == o.hover
                    } else {
                        f.value@ == o.value@ && f.open == o.open && f.hover == o.hover
                    },
                    KeyCode::Backspace => f.value@ == (if o.value@.len() == 0 {
                        o.value@
                    } else {
                        o.value@.drop_last()
                    }) && f.open == o.open && f.hover == o.hover,
                    KeyCode::Enter => if o.open && n > 0 {
                        let h = if o.hover < n { o.hover as int } else { n - 1 };
                        f.value@ == self.options@[h]@ && !f.open && f.hover == o.hover
                    } else {
                        f.value@ == o.value@ && f.open && f.hover == 0
                    },
                    KeyCode::Esc => f.value@ == o.value@ && !f.open && f.hover == o.hover,
                    KeyCode::Up => f.value@ == o.value@ && f.open == o.open && f.hover == (if o.open
                        && n > 0 {
                        ((o.hover + n - 1) % (n as int)) as usize
                    } else {
                        o.hover
                    }),
                    KeyCode::Down => f.value@ == o.value@ && f.open == o.open && f.hover == (if o.open
                        && n > 0 {
                        ((o.hover + 1) % (n as int)) as usize
                    } else {
                        o.hover
                    }),
                    _ => f.value@ == o.value@ && f.open == o.open && f.hover == o.hover,
                }
            }),
    {
        let n = self.options.len();
        match key.code {
            KeyCode::Char(c) => {
                if key.no_modifiers {
                    push_char(&mut state.value, c);
                }
            },
            KeyCode::Backspace => {
                let _ = pop_char(&mut state.value);
            },
            KeyCode::Enter => {
                if state.open && n > 0 {
                    let h = if state.hover < n {
                        state.hover
                    } else {
                        n - 1
                    };
                    state.value = self.options[h].clone();
                    state.open = false;
                } else {
                    state.open = true;
                    state.hover = 0;
                }
            },
            KeyCode::Esc => state.open = false,
            KeyCode::Up => {
                if state.open && n > 0 {
                    state.hover = (state.hover + n - 1) % n;
                }
            },
            KeyCode::Down => {
                if state.open && n > 0 {
                    state.hover = (state.hover + 1) % n;
                }
            },
            _ => {},
        }
    }
}

impl Default for ComboBoxState {
    fn default() -> (s: ComboBoxState)
        ensures
            s.value@.len() == 0,
            !s.open,
            s.hover == 0,
    {
        ComboBoxState::new()
    }
}

impl ComboBoxState {
    /// An empty, closed combo box state.
    pub fn new() -> (s: ComboBoxState)
        ensures
            s.value@.len() == 0,
            !s.open,
            s.hover == 0,
    {
        ComboBoxState { value: String::new(), open: false, hover: 0 }
    }
}

} // verus!
