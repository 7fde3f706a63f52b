//! Shared caret / cursor glyph shape and blink cadence.

use vstd::prelude::*;

verus! {

/// Frames per half blink period of every blinking caret / cursor / readout.
pub const DEFAULT_CURSOR_PERIOD: u64 = 8;

/// Whether a blinking element is in the visible half of its blink cycle at
/// `tick` (the first `DEFAULT_CURSOR_PERIOD` frames are visible).
pub open spec fn blink_on(tick: u64) -> bool {
    (tick / DEFAULT_CURSOR_PERIOD) % 2 == 0
}

/// Executable [`blink_on`].
pub fn blink_visible(tick: u64) -> (b: bool)
    ensures
        b == blink_on(tick),
{
    (tick / DEFAULT_CURSOR_PERIOD) % 2 == 0
}

/// Blinking caret glyph for text-input and list-cursor widgets.
#[derive(Debug, Clone, Copy, PartialEq, Eq)]
pub enum CaretShape {
    /// Full block `█` (the default).
    Block,
    /// Left half-block `▎`, a thin insertion bar.
    Bar,
    /// Lower half-block `▁`, an underscore-style caret.
    Underscore,
    /// Upper half-block `▀`, a ceiling-style caret.
    Half,
}

impl Default for CaretShape {
    fn default() -> (s: CaretShape)
        ensures
            s == CaretShape::Block,
    {
        CaretShape::Block
    }
}

/// The glyph of each caret shape.
pub open spec fn caret_glyph(s: CaretShape) -> char {
    match s {
        CaretShape::Block => '█',
        CaretShape::Bar => '▎',
        CaretShape::Underscore => '▁',
        CaretShape::Half => '▀',
    }
}

impl CaretShape {
    /// The width-1 glyph this caret renders as.
    pub fn glyph(self) -> (c: char)
        ensures
            c == caret_glyph(self),
    {
        match self {
            CaretShape::Block => '█',
            CaretShape::Bar => '▎',
            CaretShape::Underscore => '▁',
            CaretShape::Half => '▀',
        }
    }
}

} // verus!
