//! **HeatGrid**: an animated sensor-array heatmap.
//!
//! The per-cell intensities live in the app-side state; this module holds the
//! widget configuration.

use vstd::prelude::*;

use crate::theme::Theme;

verus! {

/// Glyph ramp of a heat cell.
#[derive(Debug, Clone, Copy, PartialEq, Eq, Structural)]
pub enum HeatShape {
    /// A block-shade ramp (the default).
    Block,
    /// The same shade ramp.
    Shade,
    /// An ASCII density ramp.
    Ascii,
    /// Dim dots below one half, bright dots above.
    Dot,
}

impl Default for HeatShape {
    fn default() -> (s: HeatShape)
        ensures
            s == HeatShape::Block,
    {
        HeatShape::Block
    }
}

/// The glyph ramp of each shape, dimmest first: an intensity `t` in
/// `0..=1` shows the glyph at index `round(t · (len − 1))`.
pub open spec fn heat_ramp(s: HeatShape) -> Seq<Seq<char>> {
    match s {
        HeatShape::Block | HeatShape::Shade => seq![" "@, "░"@, "▒"@, "▓"@, "█"@],
        HeatShape::Ascii => seq![" "@, "."@, ":"@, "-"@, "="@, "+"@, "*"@, "#"@, "@"@],
        HeatShape::Dot => seq!["·"@, "●"@],
    }
}

impl HeatShape {
    /// Number of glyphs in this shape's ramp.
    pub fn levels(self) -> (n: usize)
        ensures
            n == heat_ramp(self).len(),
    {
        match self {
            HeatShape::Block | HeatShape::Shade => 5,
            HeatShape::Ascii => 9,
            HeatShape::Dot => 2,
        }
    }

    /// The ramp glyph at `level` (levels past the top show the top glyph).
    pub fn ramp_glyph(self, level: usize) -> (g: &'static str)
        ensures
            g@ == heat_ramp(self)[if level < heat_ramp(self).len() {
                level as int
            } else {
                heat_ramp(self).len() - 1
            }],
    {
        match self {
            HeatShape::Block | HeatShape::Shade => {
                if level == 0 {
                    " "
                } else if level == 1 {
                    "░"
                } else if level == 2 {
                    "▒"
                } else if level == 3 {
                    "▓"
                } else {
                    "█"
                }
            },
            HeatShape::Ascii => {
                if level == 0 {
                    " "
                } else if level == 1 {
                    "."
                } else if level == 2 {
                    ":"
                } else if level == 3 {
                    "-"
                } else if level == 4 {
                    "="
                } else if level == 5 {
                    "+"
                } else if level == 6 {
                    "*"
                } else if level == 7 {
                    "#"
                } else {
                    "@"
                }
            },
            HeatShape::Dot => {
                if level == 0 {
                    "·"
                } else {
                    "●"
                }
            },
        }
    }
}

/// An animated 2D sensor-array heatmap (8 rows by 16 columns by default).
#[derive(Debug, Clone)]
pub struct HeatGrid {
    /// Number of rows (at least 1).
    pub rows: usize,
    /// Number of columns (at least 1).
    pub cols: usize,
    /// Visual form.
    pub shape: HeatShape,
    /// Theme whose palette drives colors.
    pub theme: Theme,
}

impl Default for HeatGrid {
    fn default() -> (w: HeatGrid)
        ensures
            w.rows == 8,
            w.cols == 16,
            w.shape == HeatShape::Block,
            w.theme == Theme::Cyberpunk,
    {
        HeatGrid { rows: 8, cols: 16, shape: HeatShape::Block, theme: Theme::Cyberpunk, }
    }
}

impl HeatGrid {
    /// A widget with the default configuration.
    pub fn new() -> (w: HeatGrid)
        ensures
            w.rows == 8,
            w.cols == 16,
            w.shape == HeatShape::Block,
            w.theme == Theme::Cyberpunk,
    {
        HeatGrid::default()
    }

    /// Set `rows` (clamped to at least 1).
    pub fn rows(self, n: usize) -> (w: HeatGrid)
        ensures
            w == (HeatGrid { rows: if n >= 1 { n } else { 1 }, ..self }),
    {
        HeatGrid {
            rows: if n >= 1 {
                n
            } else {
                1
            },
            ..self
        }
    }

    /// Set `cols` (clamped to at least 1).
    pub fn cols(self, n: usize) -> (w: HeatGrid)
        ensures
            w == (HeatGrid { cols: if n >= 1 { n } else { 1 }, ..self }),
    {
        HeatGrid {
            cols: if n >= 1 {
                n
            } else {
                1
            },
            ..self
        }
    }

    /// Set the visual form.
    pub fn shape(self, shape: HeatShape) -> (w: HeatGrid)
        ensures
            w == (HeatGrid { shape, ..self }),
    {
        HeatGrid { shape, ..self }
    }

    /// Set the theme.
    pub fn theme(self, theme: Theme) -> (w: HeatGrid)
        ensures
            w == (HeatGrid { theme, ..self }),
    {
        HeatGrid { theme, ..self }
    }
}

} // verus!
