//! **KeyValue**: aligned key / value rows, `HULL ······ 82%`.
//!
//! Each entry takes one row: the key at the left edge in the label style, the
//! value flush right in the value style and, in the dotted form, `·` leaders
//! between them.

use vstd::prelude::*;

use crate::text::{chars_of, strings_of};
use crate::theme::Theme;

verus! {

/// Visual form of a [`KeyValue`].
#[derive(Debug, Clone, Copy, PartialEq, Eq, Structural)]
pub enum KeyValueShape {
    /// Key and value only (the default).
    Plain,
    /// `·` leaders between key and value.
    Dotted,
}

impl Default for KeyValueShape {
    fn default() -> (s: KeyValueShape)
        ensures
            s == KeyValueShape::Plain,
    {
        KeyValueShape::Plain
    }
}

/// Which part of an entry a cell belongs to.
#[derive(Debug, Clone, Copy, PartialEq, Eq, Structural)]
pub enum KvPart {
    /// The key or a leader dot (label style).
    Key,
    /// The value (value style).
    Value,
}

/// Aligned key / value rows.
#[derive(Debug, Clone)]
pub struct KeyValue {
    /// `(key, value)` entries, top to bottom.
    pub entries: Vec<(String, String)>,
    /// Visual form.
    pub shape: KeyValueShape,
    /// Theme whose palette drives colors.
    pub theme: Theme,
}

/// What an entry draws in column `i` of a `width`-cell row: value chars flush
/// right take precedence over key chars from the left; in the dotted form, a
/// leader dot fills each column from one past the key up to two before the
/// value; other cells are left untouched (`None`).
pub open spec fn kv_cell(key: Seq<char>, val: Seq<char>, dotted: bool, width: nat, i: int) -> Option<(char, KvPart)> {
    let vs: int = if width >= val.len() { width - val.len() } else { 0 };
    let key_end: int = if key.len() <= width { key.len() as int } else { width as int };
    if vs <= i && i - vs < val.len() && i < width {
        Some((val[i - vs], KvPart::Value))
    } else if 0 <= i < key_end {
        Some((key[i], KvPart::Key))
    } else if dotted && key_end + 1 <= i && i < vs - 1 {
        Some(('·', KvPart::Key))
    } else {
        None
    }
}

impl KeyValue {
    /// Rows for the given `(key, value)` entries.
    pub fn new(entries: &[(&str, &str)]) -> (k: KeyValue)
        ensures
            k.entries@.len() == entries@.len(),
            forall|i: int|
                0 <= i < entries@.len() ==> (#[trigger] k.entries@[i]).0@ == entries@[i].0@
                    && k.entries@[i].1@ == entries@[i].1@,
            k.shape == KeyValueShape::Plain,
            k.theme == Theme::Cyberpunk,
    {
        let mut v: Vec<(String, String)> = Vec::new();
        let mut i: usize = 0;
        while i < entries.len()
            invariant
                i <= entries@.len(),
                v@.len() == i,
                forall|j: int|
                    0 <= j < i ==> (#[trigger] v@[j]).0@ == entries@[j].0@ && v@[j].1@
                        == entries@[j].1@,
            decreases entries@.len() - i,
        {
            let (a, b) = entries[i];
            v.push((String::from_str(a), String::from_str(b)));
            i = i + 1;
        }
        KeyValue { entries: v, shape: KeyValueShape::Plain, theme: Theme::Cyberpunk }
    }

    /// Set the visual form.
    pub fn shape(self, shape: KeyValueShape) -> (k: KeyValue)
        ensures
            k == (KeyValue { shape, ..self }),
    {
        KeyValue { shape, ..self }
    }

    /// Set the theme.
    pub fn theme(self, theme: Theme) -> (k: KeyValue)
        ensures
            k == (KeyValue { theme, ..self }),
    {
        KeyValue { theme, ..self }
    }

    /// The cells of entry `e` in a `width`-cell row (see [`kv_cell`]).
    pub fn row(&self, e: usize, width: u16) -> (r: Vec<Option<(char, KvPart)>>)
        requires
            e < self.entries@.len(),
        ensures
            r@.len() == width,
            forall|i: int|
                0 <= i < width ==> #[trigger] r@[i] == kv_cell(
                    self.entries@[e as int].0@,
                    self.entries@[e as int].1@,
                    self.shape == KeyValueShape::Dotted,
                    width as nat,
                    i,
                ),
    {
        let key = chars_of(self.entries[e].0.as_str());
        let val = chars_of(self.entries[e].1.as_str());
        let dotted = self.shape == KeyValueShape::Dotted;
        let w = width as usize;
        let vs: usize = if w >= val.len() {
            w - val.len()
        } else {
            0
        };
        let key_end: usize = if key.len() <= w {
            key.len()
        } else {
            w
        };
        let mut r: Vec<Option<(char, KvPart)>> = Vec::new();
        let mut i: usize = 0;
        while i < w
            invariant
                w == width,
                key@ == self.entries@[e as int].0@,
                val@ == self.entries@[e as int].1@,
                dotted == (self.shape == KeyValueShape::Dotted),
                vs == (if w >= val@.len() { w - val@.len() } else { 0int }),
                key_end == (if key@.len() <= w { key@.len() } else { w as nat }),
                i <= w,
                r@.len() == i,
                forall|j: int|
                    0 <= j < i ==> #[trigger] r@[j] == kv_cell(key@, val@, dotted, w as nat, j),
            decreases w - i,
        {
            let c = if vs <= i && i - vs < val.len() {
                Some((val[i - vs], KvPart::Value))
            } else if i < key_end {
                Some((key[i], KvPart::Key))
            } else if dotted && key_end + 1 <= i && vs >= 1 && i < vs - 1 {
                Some(('·', KvPart::Key))
            } else {
                None
            };
            r.push(c);
            i = i + 1;
        }
        r
    }
}

} // verus!
