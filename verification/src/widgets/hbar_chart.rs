//! **HBarChart**: labelled horizontal bars.
//!
//! One row per category: a fixed-width label, then a bar of filled cells over
//! empty cells. The eased bar values live in the app-side state; this module
//! holds the widget configuration and the bar glyphs.

use vstd::prelude::*;

use crate::text::{chars_of, strings_of};
use crate::theme::Theme;

verus! {

/// Cell glyphs of a horizontal bar.
#[derive(Debug, Clone, Copy, PartialEq, Eq, Structural)]
pub enum HBarShape {
    /// `▰` filled / `▱` empty cells (the default).
    Cell,
    /// `█` filled / `▒` empty.
    Block,
    /// `#` filled / `-` empty.
    Ascii,
}

impl Default for HBarShape {
    fn default() -> (s: HBarShape)
        ensures
            s == HBarShape::Cell,
    {
        HBarShape::Cell
    }
}

/// The filled-cell glyph of each shape.
pub open spec fn hbar_filled(s: HBarShape) -> Seq<char> {
    match s {
        HBarShape::Cell => "▰"@,
        HBarShape::Block => "█"@,
        HBarShape::Ascii => "#"@,
    }
}

/// The empty-cell glyph of each shape.
pub open spec fn hbar_empty(s: HBarShape) -> Seq<char> {
    match s {
        HBarShape::Cell => "▱"@,
        HBarShape::Block => "▒"@,
        HBarShape::Ascii => "-"@,
    }
}

impl HBarShape {
    /// Glyph for a filled bar cell.
    pub fn filled(self) -> (s: &'static str)
        ensures
            s@ == hbar_filled(self),
    {
        match self {
            HBarShape::Cell => "▰",
            HBarShape::Block => "█",
            HBarShape::Ascii => "#",
        }
    }

    /// Glyph for an empty bar cell.
    pub fn empty(self) -> (s: &'static str)
        ensures
            s@ == hbar_empty(self),
    {
        match self {
            HBarShape::Cell => "▱",
            HBarShape::Block => "▒",
            HBarShape::Ascii => "-",
        }
    }

    /// `(filled, empty)` glyphs.
    pub fn pair(self) -> (p: (&'static str, &'static str))
        ensures
            p.0@ == hbar_filled(self),
            p.1@ == hbar_empty(self),
    {
        (self.filled(), self.empty())
    }
}

/// Labelled horizontal bars.
#[derive(Debug, Clone)]
pub struct HBarChart {
    /// Category labels, one bar each, top to bottom.
    pub categories: Vec<String>,
    /// Columns reserved for the labels (at least 1).
    pub label_width: u16,
    /// Cell glyphs.
    pub shape: HBarShape,
    /// Theme whose palette drives colors.
    pub theme: Theme,
}

/// The default category labels.
pub open spec fn default_categories() -> Seq<Seq<char>> {
    seq!["ALPHA"@, "BETA"@, "GAMMA"@, "DELTA"@]
}

impl Default for HBarChart {
    fn default() -> (w: HBarChart)
        ensures
            w.categories@.len() == 4,
            forall|i: int| 0 <= i < 4 ==> (#[trigger] w.categories@[i])@ == default_categories()[i],
            w.label_width == 6,
            w.shape == HBarShape::Cell,
            w.theme == Theme::Cyberpunk,
    {
        HBarChart {
            categories: strings_of(&["ALPHA", "BETA", "GAMMA", "DELTA"]),
            label_width: 6,
            shape: HBarShape::Cell,
            theme: Theme::Cyberpunk,
        }
    }
}

impl HBarChart {
    /// A chart with the default categories (ALPHA, BETA, GAMMA, DELTA).
    pub fn new() -> (w: HBarChart)
        ensures
            w.categories@.len() == 4,
            forall|i: int| 0 <= i < 4 ==> (#[trigger] w.categories@[i])@ == default_categories()[i],
            w.label_width == 6,
            w.shape == HBarShape::Cell,
            w.theme == Theme::Cyberpunk,
    {
        HBarChart::default()
    }

    /// Replace the category list.
    pub fn categories(self, cats: &[&str]) -> (w: HBarChart)
        ensures
            w.categories@.len() == cats@.len(),
            forall|i: int| 0 <= i < cats@.len() ==> (#[trigger] w.categories@[i])@ == cats@[i]@,
            w.label_width == self.label_width,
            w.shape == self.shape,
            w.theme == self.theme,
    {
        HBarChart { categories: strings_of(cats), ..self }
    }

    /// Set the label column width (clamped to at least 1).
    pub fn label_width(self, w: u16) -> (c: HBarChart)
        ensures
            c == (HBarChart { label_width: if w >= 1 { w } else { 1 }, ..self }),
    {
        HBarChart {
            label_width: if w >= 1 {
                w
            } else {
                1
            },
            ..self
        }
    }

    /// Set the cell glyphs.
    pub fn shape(self, shape: HBarShape) -> (w: HBarChart)
        ensures
            w == (HBarChart { shape, ..self }),
    {
        HBarChart { shape, ..self }
    }

    /// Set the theme.
    pub fn theme(self, theme: Theme) -> (w: HBarChart)
        ensures
            w == (HBarChart { theme, ..self }),
    {
        HBarChart { theme, ..self }
    }

    /// Number of categories (bars).
    pub fn category_count(&self) -> (n: usize)
        ensures
            n == self.categories@.len(),
    {
        self.categories.len()
    }
}

} // verus!

verus! {

/// What a cell of a bar row shows.
#[derive(Debug, Clone, Copy, PartialEq, Eq, Structural)]
pub enum BarCell {
    /// A cell of the label column.
    Label,
    /// A filled bar cell.
    Filled,
    /// An empty bar cell.
    Empty,
}

/// The filled-cell char of each shape.
pub open spec fn hbar_filled_char(s: HBarShape) -> char {
    match s {
        HBarShape::Cell => '▰',
        HBarShape::Block => '█',
        HBarShape::Ascii => '#',
    }
}

/// The empty-cell char of each shape.
pub open spec fn hbar_empty_char(s: HBarShape) -> char {
    match s {
        HBarShape::Cell => '▱',
        HBarShape::Block => '▒',
        HBarShape::Ascii => '-',
    }
}

/// Cell `col` of a bar row: the first `label_width` cells hold the label,
/// cut to that width and padded with spaces; the rest is the bar, its first
/// `filled` cells filled and the others empty.
pub open spec fn bar_cell(label: Seq<char>, label_width: nat, filled: nat, shape: HBarShape, col: int) -> (char, BarCell) {
    if col < label_width {
        (if col < label.len() { label[col] } else { ' ' }, BarCell::Label)
    } else if col - label_width < filled {
        (hbar_filled_char(shape), BarCell::Filled)
    } else {
        (hbar_empty_char(shape), BarCell::Empty)
    }
}

/// Width of the bar region of a row: what the label column leaves.
pub open spec fn bar_width_of(label_width: u16, area_width: u16) -> nat {
    if area_width >= label_width {
        (area_width - label_width) as nat
    } else {
        0
    }
}

/// One row of the chart, `area_width` cells: `[label_width][bar...]`. The
/// label is cut to `label_width` chars and padded with spaces; the bar region
/// (`area_width - label_width`, or nothing) holds `min(filled, bar width)`
/// filled cells from the left, then empty cells.
pub fn bar_row(label: &str, label_width: u16, area_width: u16, filled: u16, shape: HBarShape) -> (r: Vec<(char, BarCell)>)
    ensures
        r@.len() == area_width,
        forall|col: int| 0 <= col < area_width ==> #[trigger] r@[col] == bar_cell(label@, label_width as nat, filled as nat, shape, col),
        forall|col: int| label_width <= col < area_width ==> (#[trigger] r@[col].1 == BarCell::Filled
            <==> col - label_width < (if filled as nat <= bar_width_of(label_width, area_width) { filled as nat } else { bar_width_of(label_width, area_width) })),
{
    let chars = chars_of(label);
    let fc = match shape {
        HBarShape::Cell => '▰',
        HBarShape::Block => '█',
        HBarShape::Ascii => '#',
    };
    let ec = match shape {
        HBarShape::Cell => '▱',
        HBarShape::Block => '▒',
        HBarShape::Ascii => '-',
    };
    let mut r: Vec<(char, BarCell)> = Vec::new();
    let mut col: u16 = 0;
    while col < area_width
        invariant
            col <= area_width,
            r@.len() == col,
            chars@ == label@,
            fc == hbar_filled_char(shape),
            ec == hbar_empty_char(shape),
            forall|c: int| 0 <= c < col ==> #[trigger] r@[c] == bar_cell(label@, label_width as nat, filled as nat, shape, c),
        decreases area_width - col,
    {
        let cell = if col < label_width {
            if (col as usize) < chars.len() {
                (chars[col as usize], BarCell::Label)
            } else {
                (' ', BarCell::Label)
            }
        } else if col - label_width < filled {
            (fc, BarCell::Filled)
        } else {
            (ec, BarCell::Empty)
        };
        r.push(cell);
        col = col + 1;
    }
    r
}

} // verus!
