//! **ProgressBar** glyphs and the indeterminate animation.
//!
//! A determinate bar fills `round(ratio · width)` cells; the indeterminate
//! form bounces a quarter-width lit block back and forth across the track,
//! one cell every two ticks. The ratio-carrying widget itself lives with the
//! renderer; this module holds its glyphs, its state and the bounce.

use vstd::prelude::*;

verus! {

/// Ticks per one-cell step of the indeterminate block.
pub const INDETERMINATE_SPEED: u64 = 2;

/// Glyph pair of a progress bar.
#[derive(Debug, Clone, Copy, PartialEq, Eq, Structural)]
pub enum ProgressBarShape {
    /// `█` filled / `░` track (the default).
    Block,
    /// `▰` filled / `▱` track.
    Cell,
    /// `=` filled / `-` track.
    Ascii,
}

impl Default for ProgressBarShape {
    fn default() -> (s: ProgressBarShape)
        ensures
            s == ProgressBarShape::Block,
    {
        ProgressBarShape::Block
    }
}

/// The filled glyph of each shape.
pub open spec fn progress_filled(s: ProgressBarShape) -> char {
    match s {
        ProgressBarShape::Block => '█',
        ProgressBarShape::Cell => '▰',
        ProgressBarShape::Ascii => '=',
    }
}

/// The track glyph of each shape.
pub open spec fn progress_track(s: ProgressBarShape) -> char {
    match s {
        ProgressBarShape::Block => '░',
        ProgressBarShape::Cell => '▱',
        ProgressBarShape::Ascii => '-',
    }
}

impl ProgressBarShape {
    /// Glyph for a filled cell.
    pub fn filled(self) -> (c: char)
        ensures
            c == progress_filled(self),
    {
        match self {
            ProgressBarShape::Block => '█',
            ProgressBarShape::Cell => '▰',
            ProgressBarShape::Ascii => '=',
        }
    }

    /// Glyph for an empty track cell.
    pub fn track(self) -> (c: char)
        ensures
            c == progress_track(self),
    {
        match self {
            ProgressBarShape::Block => '░',
            ProgressBarShape::Cell => '▱',
            ProgressBarShape::Ascii => '-',
        }
    }
}

/// Mutable state for a progress bar: the animation clock.
#[derive(Debug, Clone, Copy)]
pub struct ProgressBarState {
    /// Animation clock, advanced once per frame.
    pub tick: u64,
}

impl Default for ProgressBarState {
    fn default() -> (s: ProgressBarState)
        ensures
            s.tick == 0,
    {
        ProgressBarState { tick: 0 }
    }
}

impl ProgressBarState {
    /// A state at tick 0.
    pub fn new() -> (s: ProgressBarState)
        ensures
            s.tick == 0,
    {
        ProgressBarState { tick: 0 }
    }

    /// Advance the clock one tick (wrapping).
    pub fn tick(&mut self)
        ensures
            final(self).tick == (if old(self).tick == u64::MAX {
                0
            } else {
                (old(self).tick + 1) as u64
            }),
    {
        self.tick = self.tick.wrapping_add(1);
    }
}

/// Width of the indeterminate block: a quarter of the track, at least one.
pub open spec fn block_width(width: nat) -> nat {
    if width / 4 >= 1 {
        width / 4
    } else {
        1
    }
}

/// Start column of the indeterminate block at `tick`: a triangle wave over
/// `0..=span` (span = width − block width), one step every two ticks.
pub open spec fn block_pos(width: nat, tick: nat) -> nat {
    let span: nat = if width >= block_width(width) { (width - block_width(width)) as nat } else { 0 };
    let period = 2 * span;
    let phase = (tick / 2) % (if period >= 1 { period } else { 1 });
    let pos = if phase < span { phase } else { (period - phase) as nat };
    if pos <= span { pos } else { span }
}

/// The indeterminate block of a `width`-cell track at `tick`: `(start,
/// width)`; cells `start..start + width` are lit.
pub fn indeterminate_block(width: u16, tick: u64) -> (r: (u16, u16))
    ensures
        r.0 == block_pos(width as nat, tick as nat),
        r.1 == block_width(width as nat),
{
    let bw: u16 = if width / 4 >= 1 {
        width / 4
    } else {
        1
    };
    let span: u64 = if width >= bw {
        (width - bw) as u64
    } else {
        0
    };
    let period = 2 * span;
    let phase = (tick / INDETERMINATE_SPEED) % (if period >= 1 {
        period
    } else {
        1
    });
    let pos = if phase < span {
        phase
    } else {
        period - phase
    };
    let pos = if pos <= span {
        pos
    } else {
        span
    };
    (pos as u16, bw)
}

} // verus!
