//! **Dropdown**: a select box.
//!
//! Collapsed it shows one row, `▾ <selected option>`; `Enter` expands it to
//! one row per option with the hovered row marked `▶`, `Up` / `Down` move the
//! hover (wrapping), `Enter` commits the hover and `Esc` cancels.

use vstd::prelude::*;

use crate::keys::{KeyCode, KeyEvent};
use crate::text::{chars_of, strings_of};
use crate::theme::Theme;

verus! {

/// Collapsed-row caret of the default shape.
pub const CARET: char = '▾';

/// Hover marker of the default shape.
pub const MARK: char = '▶';

/// Glyph pair of a [`Dropdown`].
#[derive(Debug, Clone, Copy, PartialEq, Eq, Structural)]
pub enum DropdownShape {
    /// `▾` caret, `▶` marker (the default).
    Chevron,
    /// `▼` caret, `►` marker.
    Arrow,
    /// `·` caret, `◉` marker.
    Dot,
}

impl Default for DropdownShape {
    fn default() -> (s: DropdownShape)
        ensures
            s == DropdownShape::Chevron,
    {
        DropdownShape::Chevron
    }
}

/// The collapsed-row caret of each shape.
pub open spec fn dropdown_caret(s: DropdownShape) -> char {
    match s {
        DropdownShape::Chevron => '▾',
        DropdownShape::Arrow => '▼',
        DropdownShape::Dot => '·',
    }
}

/// The hover marker of each shape.
pub open spec fn dropdown_mark(s: DropdownShape) -> char {
    match s {
        DropdownShape::Chevron => '▶',
        DropdownShape::Arrow => '►',
        DropdownShape::Dot => '◉',
    }
}

impl DropdownShape {
    /// The collapsed-row caret glyph.
    pub fn caret(self) -> (c: char)
        ensures
            c == dropdown_caret(self),
    {
        match self {
            DropdownShape::Chevron => CARET,
            DropdownShape::Arrow => '▼',
            DropdownShape::Dot => '·',
        }
    }

    /// The hovered-row marker glyph.
    pub fn mark(self) -> (c: char)
        ensures
            c == dropdown_mark(self),
    {
        match self {
            DropdownShape::Chevron => MARK,
            DropdownShape::Arrow => '►',
            DropdownShape::Dot => '◉',
        }
    }
}

/// A sci-fi dropdown.
#[derive(Debug, Clone)]
pub struct Dropdown {
    /// The options, top to bottom.
    pub options: Vec<String>,
    /// Glyph form.
    pub shape: DropdownShape,
    /// Theme whose palette drives colors.
    pub theme: Theme,
}

/// Mutable state for [`Dropdown`].
#[derive(Debug, Clone, Copy)]
pub struct DropdownState {
    /// Index of the committed option.
    pub selected: usize,
    /// Whether the option list is open.
    pub expanded: bool,
    /// Index of the hovered option while open.
    pub hover: usize,
}

/// `i` clamped to the last index of `n > 0` items.
pub open spec fn clamp_index(i: usize, n: nat) -> int {
    if i < n {
        i as int
    } else {
        n - 1
    }
}

/// The state after a key press on a dropdown of `n` options.
pub open spec fn dropdown_after(s: DropdownState, n: nat, k: KeyCode) -> DropdownState {
    if n == 0 {
        s
    } else if k == KeyCode::Enter {
        if s.expanded {
            DropdownState { selected: clamp_index(s.hover, n) as usize, expanded: false, ..s }
        } else {
            DropdownState { expanded: true, hover: clamp_index(s.selected, n) as usize, ..s }
        }
    } else if k == KeyCode::Esc {
        DropdownState { expanded: false, ..s }
    } else if k == KeyCode::Up && s.expanded {
        DropdownState { hover: ((s.hover + n - 1) % (n as int)) as usize, ..s }
    } else if k == KeyCode::Down && s.expanded {
        DropdownState { hover: ((s.hover + 1) % (n as int)) as usize, ..s }
    } else {
        s
    }
}

/// What each key does to a dropdown of `n > 0` options: `Esc` closes the
/// list and keeps the committed and hovered options; `Enter` on an open list
/// commits the hovered option (clamped to the last) and closes it; `Enter` on
/// a closed list opens it with the hover on the committed option (clamped);
/// `Up` / `Down` on an open list move the hover one option, wrapping, and
/// commit nothing; anything else, and any key with no options, changes
/// nothing.
pub proof fn lemma_dropdown_keys(s: DropdownState, n: nat, k: KeyCode)
    ensures
        n == 0 ==> dropdown_after(s, n, k) == s,
        n > 0 && k == KeyCode::Esc ==> dropdown_after(s, n, k).selected == s.selected
            && dropdown_after(s, n, k).hover == s.hover && !dropdown_after(s, n, k).expanded,
        n > 0 && k == KeyCode::Enter && s.expanded ==> dropdown_after(s, n, k).selected == (if s.hover
            < n {
            s.hover as int
        } else {
            n - 1
        }) && !dropdown_after(s, n, k).expanded && dropdown_after(s, n, k).hover == s.hover,
        n > 0 && k == KeyCode::Enter && !s.expanded ==> dropdown_after(s, n, k).selected == s.selected
            && dropdown_after(s, n, k).expanded && dropdown_after(s, n, k).hover == (if s.selected
            < n {
            s.selected as int
        } else {
            n - 1
        }),
        0 < n <= usize::MAX && s.hover < n && s.expanded && k == KeyCode::Down ==> dropdown_after(
            s,
            n,
            k,
        ).selected == s.selected && dropdown_after(s, n, k).expanded && dropdown_after(s, n, k).hover
            == (if s.hover + 1 == n {
            0
        } else {
            s.hover + 1
        }),
        0 < n <= usize::MAX && s.hover < n && s.expanded && k == KeyCode::Up ==> dropdown_after(
            s,
            n,
            k,
        ).selected == s.selected && dropdown_after(s, n, k).expanded && dropdown_after(s, n, k).hover
            == (if s.hover == 0 {
            n - 1
        } else {
            s.hover - 1
        }),
        n > 0 && !(k == KeyCode::Esc || k == KeyCode::Enter || (s.expanded && (k == KeyCode::Up || k
            == KeyCode::Down))) ==> dropdown_after(s, n, k) == s,
{
    if 0 < n <= usize::MAX && s.hover < n && s.expanded {
        if k == KeyCode::Down {
            if s.hover + 1 == n {
                vstd::arithmetic::div_mod::lemma_mod_self_0(n as int);
            } else {
                vstd::arithmetic::div_mod::lemma_small_mod((s.hover + 1) as nat, n);
            }
        }
        if k == KeyCode::Up {
            if s.hover == 0 {
                vstd::arithmetic::div_mod::lemma_small_mod((n - 1) as nat, n);
            } else {
                vstd::arithmetic::div_mod::lemma_mod_add_multiples_vanish(s.hover - 1, n as int);
                vstd::arithmetic::div_mod::lemma_small_mod((s.hover - 1) as nat, n);
            }
        }
    }
}

/// Key presses keep both indices on an option: with `n > 0` options and the
/// committed and hovered indices in range, they stay in range.
pub proof fn lemma_dropdown_indices_in_range(s: DropdownState, n: nat, k: KeyCode)
    requires
        0 < n <= usize::MAX,
        s.selected < n,
        s.hover < n,
    ensures
        dropdown_after(s, n, k).selected < n,
        dropdown_after(s, n, k).hover < n,
{
}

/// While the list is open, `Down` undoes `Up` (and `Up` undoes `Down`): the
/// hover wraps around the ends.
pub proof fn lemma_dropdown_up_down(s: DropdownState, n: nat)
    requires
        0 < n <= usize::MAX,
        s.hover < n,
        s.expanded,
    ensures
        dropdown_after(dropdown_after(s, n, KeyCode::Up), n, KeyCode::Down) == s,
        dropdown_after(dropdown_after(s, n, KeyCode::Down), n, KeyCode::Up) == s,
{
    let u = dropdown_after(s, n, KeyCode::Up);
    let d = dropdown_after(s, n, KeyCode::Down);
    assert(u.hover == (s.hover + n - 1) % (n as int));
    assert(d.hover == (s.hover + 1) % (n as int));
    if s.hover == 0 {
        assert(u.hover == n - 1) by {
            vstd::arithmetic::div_mod::lemma_small_mod((n - 1) as nat, n);
        }
    } else {
        assert(u.hover == s.hover - 1) by {
            vstd::arithmetic::div_mod::lemma_mod_add_multiples_vanish((s.hover - 1) as int, n as int);
            vstd::arithmetic::div_mod::lemma_small_mod((s.hover - 1) as nat, n);
        }
    }
    if s.hover + 1 == n {
        assert(d.hover == 0) by {
            vstd::arithmetic::div_mod::lemma_mod_self_0(n as int);
        }
    } else {
        assert(d.hover == s.hover + 1) by {
            vstd::arithmetic::div_mod::lemma_small_mod((s.hover + 1) as nat, n);
        }
    }
    let ud = dropdown_after(u, n, KeyCode::Down);
    let du = dropdown_after(d, n, KeyCode::Up);
    assert(ud.hover == (u.hover + 1) % (n as int));
    assert(du.hover == (d.hover + n - 1) % (n as int));
    if s.hover == 0 {
        vstd::arithmetic::div_mod::lemma_mod_self_0(n as int);
    } else {
        vstd::arithmetic::div_mod::lemma_small_mod(s.hover as nat, n);
    }
    if s.hover + 1 == n {
        vstd::arithmetic::div_mod::lemma_small_mod((n - 1) as nat, n);
    } else {
        vstd::arithmetic::div_mod::lemma_mod_add_multiples_vanish(s.hover as int, n as int);
        vstd::arithmetic::div_mod::lemma_small_mod(s.hover as nat, n);
    }
}

impl Dropdown {
    /// A dropdown over the given options, default shape and theme.
    pub fn new(options: &[&str]) -> (d: Dropdown)
        ensures
            d.options@.len() == options@.len(),
            forall|i: int| 0 <= i < options@.len() ==> (#[trigger] d.options@[i])@ == options@[i]@,
            d.shape == DropdownShape::Chevron,
            d.theme == Theme::Cyberpunk,
    {
        Dropdown { options: strings_of(options), shape: DropdownShape::Chevron, theme: Theme::Cyberpunk }
    }

    /// Set the glyph form.
    pub fn shape(self, shape: DropdownShape) -> (d: Dropdown)
        ensures
            d == (Dropdown { shape, ..self }),
    {
        Dropdown { shape, ..self }
    }

    /// Set the theme.
    pub fn theme(self, theme: Theme) -> (d: Dropdown)
        ensures
            d == (Dropdown { theme, ..self }),
    {
        Dropdown { theme, ..self }
    }

    /// Apply a key press (see [`dropdown_after`]): `Enter` opens the list
    /// (hovering the committed option) or commits the hover and closes it,
    /// `Esc` closes it, `Up` / `Down` move the hover while open. Nothing
    /// happens without options.
    pub fn handle_key(&self, state: &mut DropdownState, key: KeyEvent)
        requires
            key.code == KeyCode::Up && old(state).expanded ==> old(state).hover
                + self.options@.len() <= usize::MAX,
            key.code == KeyCode::Down && old(state).expanded ==> old(state).hover < usize::MAX,
        ensures
            *final(state) == dropdown_after(*old(state), self.options@.len(), key.code),
    {
        let n = self.options.len();
        if n == 0 {
            return;
        }
        match key.code {
            KeyCode::Enter => {
                if state.expanded {
                    state.selected = if state.hover < n {
                        state.hover
                    } else {
                        n - 1
                    };
                    state.expanded = false;
                } else {
                    state.expanded = true;
                    state.hover = if state.selected < n {
                        state.selected
                    } else {
                        n - 1
                    };
                }
            },
            KeyCode::Esc => state.expanded = false,
            KeyCode::Up => {
                if state.expanded {
                    state.hover = (state.hover + n - 1) % n;
                }
            },
            KeyCode::Down => {
                if state.expanded {
                    state.hover = (state.hover + 1) % n;
                }
            },
            _ => {},
        }
    }

    /// The rows a dropdown shows, top to bottom, each as `(marker, text,
    /// highlighted)`: collapsed, one highlighted row with the caret and the
    /// committed option; expanded, one row per option, the hovered one marked
    /// and highlighted. Indices are clamped to the last option; no options,
    /// no rows.
    pub fn rows(&self, state: &DropdownState) -> (r: Vec<(char, Vec<char>, bool)>)
        ensures
            self.options@.len() == 0 ==> r@.len() == 0,
            self.options@.len() > 0 && !state.expanded ==> r@.len() == 1 && r@[0].0
                == dropdown_caret(self.shape) && r@[0].1@ == self.options@[clamp_index(
                state.selected,
                self.options@.len(),
            )]@ && r@[0].2,
            self.options@.len() > 0 && state.expanded ==> r@.len() == self.options@.len() && forall|
                i: int,
            |
                0 <= i < r@.len() ==> {
                    let hov = i == clamp_index(state.hover, self.options@.len());
                    &&& (#[trigger] r@[i]).0 == (if hov {
                        dropdown_mark(self.shape)
                    } else {
                        ' '
                    })
                    &&& r@[i].1@ == self.options@[i]@
                    &&& r@[i].2 == hov
                },
    {
        let n = self.options.len();
        let mut r: Vec<(char, Vec<char>, bool)> = Vec::new();
        if n == 0 {
            return r;
        }
        if !state.expanded {
            let sel = if state.selected < n {
                state.selected
            } else {
                n - 1
            };
            r.push((self.shape.caret(), chars_of(self.options[sel].as_str()), true));
            return r;
        }
        let hover = if state.hover < n {
            state.hover
        } else {
            n - 1
        };
        let mut i: usize = 0;
        while i < n
            invariant
                n == self.options@.len(),
                n > 0,
                state.expanded,
                hover == clamp_index(state.hover, n as nat),
                i <= n,
                r@.len() == i,
                forall|k: int|
                    0 <= k < i ==> {
                        let hov = k == clamp_index(state.hover, n as nat);
                        &&& (#[trigger] r@[k]).0 == (if hov {
                            dropdown_mark(self.shape)
                        } else {
                            ' '
                        })
                        &&& r@[k].1@ == self.options@[k]@
                        &&& r@[k].2 == hov
                    },
            decreases n - i,
        {
            let hov = i == hover;
            let m = if hov {
                self.shape.mark()
            } else {
                ' '
            };
            r.push((m, chars_of(self.options[i].as_str()), hov));
            i = i + 1;
        }
        r
    }
}

impl Default for DropdownState {
    fn default() -> (s: DropdownState)
        ensures
            s.selected == 0,
            !s.expanded,
            s.hover == 0,
    {
        DropdownState { selected: 0, expanded: false, hover: 0 }
    }
}

impl DropdownState {
    /// Collapsed, first option selected and hovered.
    pub fn new() -> (s: DropdownState)
        ensures
            s.selected == 0,
            !s.expanded,
            s.hover == 0,
    {
        DropdownState::default()
    }
}

} // verus!
