//! **MultiSelectList**: a checklist with a cursor.
//!
//! `Up` / `Down` move the cursor (wrapping), `Space` toggles the item under the
//! cursor. Each row reads `▸[✓] item`.

use vstd::prelude::*;

use crate::keys::{KeyCode, KeyEvent};
use crate::text::{chars_of, strings_of};
use crate::theme::Theme;

verus! {

/// Cursor marker glyph.
pub const CURSOR: char = '▸';

/// Check mark glyph of the default shape.
pub const MARK_CHECK: char = '✓';

/// Mark-glyph pair of a [`MultiSelectList`].
#[derive(Debug, Clone, Copy, PartialEq, Eq, Structural)]
pub enum MultiSelectShape {
    /// `✓` checked, blank unchecked (the default).
    Check,
    /// `✕` checked, `·` unchecked.
    Cross,
    /// `■` checked, `□` unchecked.
    Block,
}

impl Default for MultiSelectShape {
    fn default() -> (s: MultiSelectShape)
        ensures
            s == MultiSelectShape::Check,
    {
        MultiSelectShape::Check
    }
}

/// The mark glyph of each shape for a checked state.
pub open spec fn multi_mark(s: MultiSelectShape, checked: bool) -> char {
    match s {
        MultiSelectShape::Check => if checked { '✓' } else { ' ' },
        MultiSelectShape::Cross => if checked { '✕' } else { '·' },
        MultiSelectShape::Block => if checked { '■' } else { '□' },
    }
}

impl MultiSelectShape {
    /// The mark glyph for the given checked state.
    pub fn mark(self, checked: bool) -> (c: char)
        ensures
            c == multi_mark(self, checked),
    {
        match self {
            MultiSelectShape::Check => if checked {
                MARK_CHECK
            } else {
                ' '
            },
            MultiSelectShape::Cross => if checked {
                '✕'
            } else {
                '·'
            },
            MultiSelectShape::Block => if checked {
                '■'
            } else {
                '□'
            },
        }
    }
}

/// A sci-fi multi-select list.
#[derive(Debug, Clone)]
pub struct MultiSelectList {
    /// Item labels, top to bottom.
    pub items: Vec<String>,
    /// Mark-glyph form.
    pub shape: MultiSelectShape,
    /// Theme whose palette drives colors.
    pub theme: Theme,
}

/// Whether item `i` is checked in a mask (false out of range).
pub open spec fn checked_at(mask: Seq<bool>, i: int) -> bool {
    0 <= i < mask.len() && mask[i]
}

/// The row text of item `i`: cursor marker (or blank), `[mark]`, a blank and
/// the label.
pub open spec fn multi_row(l: MultiSelectList, mask: Seq<bool>, cursor: int, i: int) -> Seq<char> {
    seq![if i == cursor { CURSOR } else { ' ' }, '[', multi_mark(l.shape, checked_at(mask, i)), ']', ' ']
        + l.items@[i]@
}

/// The cursor after a `Down` / `Right` press over `n` items (wrapping).
pub open spec fn cursor_down(c: int, n: int) -> int {
    (c + 1) % n
}

/// The cursor after an `Up` / `Left` press over `n` items (wrapping).
pub open spec fn cursor_up(c: int, n: int) -> int {
    (c + n - 1) % n
}

/// The cursor after `k` `Down` presses over `n` items.
pub open spec fn cursor_downs(c: int, n: int, k: nat) -> int
    decreases k,
{
    if k == 0 {
        c
    } else {
        cursor_down(cursor_downs(c, n, (k - 1) as nat), n)
    }
}

/// The cursor wraps around the list: `Up` undoes `Down`, and `n` presses of
/// `Down` over `n` items bring the cursor back to where it was.
pub proof fn lemma_cursor_wraps(c: int, n: int)
    requires
        0 <= c < n,
    ensures
        cursor_up(cursor_down(c, n), n) == c,
        cursor_down(cursor_up(c, n), n) == c,
        cursor_downs(c, n, n as nat) == c,
{
    lemma_cursor_downs(c, n, n as nat);
    assert((c + n) % n == c) by {
        vstd::arithmetic::div_mod::lemma_mod_add_multiples_vanish(c, n);
        vstd::arithmetic::div_mod::lemma_small_mod(c as nat, n as nat);
    }
    assert(cursor_up(cursor_down(c, n), n) == c) by {
        if c + 1 < n {
            vstd::arithmetic::div_mod::lemma_small_mod((c + 1) as nat, n as nat);
            assert(cursor_down(c, n) == c + 1);
            vstd::arithmetic::div_mod::lemma_small_mod(c as nat, n as nat);
            vstd::arithmetic::div_mod::lemma_mod_add_multiples_vanish(c, n);
        } else {
            vstd::arithmetic::div_mod::lemma_mod_self_0(n);
            assert(cursor_down(c, n) == 0);
            vstd::arithmetic::div_mod::lemma_small_mod((n - 1) as nat, n as nat);
        }
    }
    assert(cursor_down(cursor_up(c, n), n) == c) by {
        if c == 0 {
            vstd::arithmetic::div_mod::lemma_small_mod((n - 1) as nat, n as nat);
            vstd::arithmetic::div_mod::lemma_mod_self_0(n);
        } else {
            vstd::arithmetic::div_mod::lemma_mod_add_multiples_vanish(c - 1, n);
            vstd::arithmetic::div_mod::lemma_small_mod((c - 1) as nat, n as nat);
            vstd::arithmetic::div_mod::lemma_small_mod(c as nat, n as nat);
        }
    }
}

proof fn lemma_cursor_downs(c: int, n: int, k: nat)
    requires
        0 <= c < n,
    ensures
        cursor_downs(c, n, k) == (c + k) % n,
    decreases k,
{
    if k == 0 {
        vstd::arithmetic::div_mod::lemma_small_mod(c as nat, n as nat);
    } else {
        lemma_cursor_downs(c, n, (k - 1) as nat);
        let x = c + k - 1;
        if n == 1 {
            vstd::arithmetic::div_mod::lemma_mod_pos_bound(x % n + 1, n);
            vstd::arithmetic::div_mod::lemma_mod_pos_bound(x + 1, n);
        } else {
            vstd::arithmetic::div_mod::lemma_add_mod_noop(x, 1, n);
            vstd::arithmetic::div_mod::lemma_small_mod(1, n as nat);
        }
    }
}

impl MultiSelectList {
    /// A list of the given item labels, default shape and theme.
    pub fn new(items: &[&str]) -> (l: MultiSelectList)
        ensures
            l.items@.len() == items@.len(),
            forall|i: int| 0 <= i < items@.len() ==> (#[trigger] l.items@[i])@ == items@[i]@,
            l.shape == MultiSelectShape::Check,
            l.theme == Theme::Cyberpunk,
    {
        MultiSelectList {
            items: strings_of(items),
            shape: MultiSelectShape::Check,
            theme: Theme::Cyberpunk,
        }
    }

    /// Set the mark-glyph form.
    pub fn shape(self, shape: MultiSelectShape) -> (l: MultiSelectList)
        ensures
            l == (MultiSelectList { shape, ..self }),
    {
        MultiSelectList { shape, ..self }
    }

    /// Set the theme.
    pub fn theme(self, theme: Theme) -> (l: MultiSelectList)
        ensures
            l == (MultiSelectList { theme, ..self }),
    {
        MultiSelectList { theme, ..self }
    }

    /// Apply a key press: `Up` / `Left` and `Down` / `Right` move the cursor
    /// one item (wrapping), `Space` toggles the item under the cursor (the
    /// cursor clamped to the last item). Other keys, and any key with no
    /// items, do nothing.
    pub fn handle_key(&self, state: &mut MultiSelectListState, key: KeyEvent)
        requires
            (key.code == KeyCode::Up || key.code == KeyCode::Left) ==> old(state).cursor
                + self.items@.len() <= usize::MAX,
            (key.code == KeyCode::Down || key.code == KeyCode::Right) ==> old(state).cursor
                < usize::MAX,
        ensures
            ({
                let n = self.items@.len();
                let c = old(state).cursor;
                if n == 0 {
                    *final(state) == *old(state)
                } else if key.code == KeyCode::Up || key.code == KeyCode::Left {
                    final(state).cursor == cursor_up(c as int, n as int) && final(state).checked@
                        == old(state).checked@
                } else if key.code == KeyCode::Down || key.code == KeyCode::Right {
                    final(state).cursor == cursor_down(c as int, n as int) && final(state).checked@
                        == old(state).checked@
                } else if key.code == KeyCode::Char(' ') {
                    let t = if c < n { c as int } else { n - 1 };
                    final(state).cursor == c && final(state).checked@ == (if t < old(
                        state,
                    ).checked@.len() {
                        old(state).checked@.update(t, !old(state).checked@[t])
                    } else {
                        old(state).checked@
                    })
                } else {
                    *final(state) == *old(state)
                }
            }),
    {
        let n = self.items.len();
        if n == 0 {
            return;
        }
        match key.code {
            KeyCode::Up | KeyCode::Left => {
                state.cursor = (state.cursor + n - 1) % n;
            },
            KeyCode::Down | KeyCode::Right => {
                state.cursor = (state.cursor + 1) % n;
            },
            KeyCode::Char(' ') => {
                let t = if state.cursor < n {
                    state.cursor
                } else {
                    n - 1
                };
                state.toggle(t);
            },
            _ => {},
        }
    }

    /// Make the checked mask cover every item (grown with unchecked flags).
    pub fn sync(&self, state: &mut MultiSelectListState)
        ensures
            final(state).cursor == old(state).cursor,
            old(state).checked@.len() >= self.items@.len() ==> final(state).checked@ == old(
                state,
            ).checked@,
            old(state).checked@.len() < self.items@.len() ==> final(state).checked@ == old(
                state,
            ).checked@ + Seq::new(
                (self.items@.len() - old(state).checked@.len()) as nat,
                |i: int| false,
            ),
    {
        let n = self.items.len();
        if state.checked.len() < n {
            let ghost before = state.checked@;
            while state.checked.len() < n
                invariant
                    state.cursor == old(state).cursor,
                    before.len() <= state.checked@.len() <= n,
                    state.checked@ == before + Seq::new(
                        (state.checked@.len() - before.len()) as nat,
                        |i: int| false,
                    ),
                decreases n - state.checked.len(),
            {
                state.checked.push(false);
                assert(state.checked@ =~= before + Seq::new(
                    (state.checked@.len() - before.len()) as nat,
                    |i: int| false,
                ));
            }
        }
    }

    /// The text of row `i` (see [`multi_row`]), with the cursor clamped to
    /// the last item.
    pub fn row(&self, state: &MultiSelectListState, i: usize) -> (r: Vec<char>)
        requires
            i < self.items@.len(),
        ensures
            r@ == multi_row(
                *self,
                state.checked@,
                if state.cursor < self.items@.len() {
                    state.cursor as int
                } else {
                    self.items@.len() - 1
                },
                i as int,
            ),
    {
        let n = self.items.len();
        let cursor = if state.cursor < n {
            state.cursor
        } else {
            n - 1
        };
        let mut r: Vec<char> = Vec::new();
        r.push(
            if i == cursor {
                CURSOR
            } else {
                ' '
            },
        );
        r.push('[');
        r.push(self.shape.mark(state.is_checked(i)));
        r.push(']');
        r.push(' ');
        let mut label = chars_of(self.items[i].as_str());
        let ghost head = r@;
        r.append(&mut label);
        r
    }
}

/// Mutable state for [`MultiSelectList`].
#[derive(Debug, Clone)]
pub struct MultiSelectListState {
    /// Index of the focused item.
    pub cursor: usize,
    /// Per-item checked flag.
    pub checked: Vec<bool>,
}

impl Default for MultiSelectListState {
    fn default() -> (s: MultiSelectListState)
        ensures
            s.cursor == 0,
            s.checked@.len() == 0,
    {
        MultiSelectListState::new(0)
    }
}

/// The check mask with item `i` flipped (unchanged out of range).
pub open spec fn toggled(mask: Seq<bool>, i: int) -> Seq<bool> {
    if 0 <= i < mask.len() {
        mask.update(i, !mask[i])
    } else {
        mask
    }
}

/// Toggling an item twice restores the mask, and toggling one item leaves
/// every other item's check alone.
pub proof fn lemma_toggle_involution(mask: Seq<bool>, i: int, j: int)
    ensures
        toggled(toggled(mask, i), i) == mask,
        j != i && 0 <= j < mask.len() ==> toggled(mask, i)[j] == mask[j],
{
    assert(toggled(toggled(mask, i), i) =~= mask);
}

impl MultiSelectListState {
    /// A state with `n` unchecked items, cursor at 0.
    pub fn new(n: usize) -> (s: MultiSelectListState)
        ensures
            s.cursor == 0,
            s.checked@ == Seq::new(n as nat, |i: int| false),
    {
        let mut checked: Vec<bool> = Vec::new();
        let mut i: usize = 0;
        while i < n
            invariant
                i <= n,
                checked@ == Seq::new(i as nat, |k: int| false),
            decreases n - i,
        {
            checked.push(false);
            i = i + 1;
            assert(checked@ =~= Seq::new(i as nat, |k: int| false));
        }
        MultiSelectListState { cursor: 0, checked }
    }

    /// Flip the check of item `i` (no-op out of range).
    pub fn toggle(&mut self, i: usize)
        ensures
            final(self).cursor == old(self).cursor,
            final(self).checked@ == toggled(old(self).checked@, i as int),
    {
        if i < self.checked.len() {
            let c = self.checked[i];
            self.checked.set(i, !c);
        }
    }

    /// Whether item `i` is checked (false out of range).
    pub fn is_checked(&self, i: usize) -> (b: bool)
        ensures
            b == checked_at(self.checked@, i as int),
    {
        i < self.checked.len() && self.checked[i]
    }
}

} // verus!
