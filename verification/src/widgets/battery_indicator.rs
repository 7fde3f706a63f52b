//! **BatteryIndicator** row layout: `[`, the charge segments, `]` and the
//! positive-terminal nub `▐`, clipped to the area's width. How many segments
//! are filled comes from the float charge ratio, in the renderer.

use vstd::prelude::*;

verus! {

/// Segment count of the [`Cells`](BatteryShape::Cells) form.
pub const CELLS: u16 = 6;

/// Visual form of a battery indicator.
#[derive(Debug, Clone, Copy, PartialEq, Eq, Structural)]
pub enum BatteryShape {
    /// A fixed number of segments, `[████░░]▐` (the default).
    Cells,
    /// A continuous bar across the area.
    Bar,
}

impl Default for BatteryShape {
    fn default() -> (s: BatteryShape)
        ensures
            s == BatteryShape::Cells,
    {
        BatteryShape::Cells
    }
}

/// One glyph of the battery row.
#[derive(Debug, Clone, Copy, PartialEq, Eq, Structural)]
pub enum BatteryGlyph {
    /// `[` (muted).
    Open,
    /// A filled segment `█` (level color).
    Full,
    /// An empty segment `░` (muted).
    Empty,
    /// `]` (muted).
    Close,
    /// The terminal nub `▐` (level color).
    Nub,
}

/// Segment count for an area `width` cells wide.
pub open spec fn segments_of(shape: BatteryShape, width: int) -> int {
    match shape {
        BatteryShape::Cells => CELLS as int,
        BatteryShape::Bar => if width >= 3 { width - 3 } else { 0 },
    }
}

/// The unclipped row: bracket, `segments` segments of which the first
/// `filled` are full, bracket, nub.
pub open spec fn battery_row_of(segments: int, filled: int) -> Seq<BatteryGlyph> {
    seq![BatteryGlyph::Open] + Seq::new(
        segments as nat,
        |i: int|
            if i < filled {
                BatteryGlyph::Full
            } else {
                BatteryGlyph::Empty
            },
    ) + seq![BatteryGlyph::Close, BatteryGlyph::Nub]
}

impl BatteryGlyph {
    /// The char drawn for this glyph.
    pub fn glyph(self) -> (c: char)
        ensures
            c == (match self {
                BatteryGlyph::Open => '[',
                BatteryGlyph::Full => '█',
                BatteryGlyph::Empty => '░',
                BatteryGlyph::Close => ']',
                BatteryGlyph::Nub => '▐',
            }),
    {
        match self {
            BatteryGlyph::Open => '[',
            BatteryGlyph::Full => '█',
            BatteryGlyph::Empty => '░',
            BatteryGlyph::Close => ']',
            BatteryGlyph::Nub => '▐',
        }
    }
}

impl BatteryShape {
    /// Segment count for an area `width` cells wide.
    pub fn segments(self, width: u16) -> (n: u16)
        ensures
            n == segments_of(self, width as int),
    {
        match self {
            BatteryShape::Cells => CELLS,
            BatteryShape::Bar => width.saturating_sub(3),
        }
    }
}

/// The battery row as drawn in an area `width` cells wide: the row of
/// `segments` segments with `filled` full, cut to the first `width` glyphs.
pub fn battery_row(width: u16, segments: u16, filled: u16) -> (v: Vec<BatteryGlyph>)
    ensures
        v@ == battery_row_of(segments as int, filled as int).take(
            if width < segments + 3 { width as int } else { segments + 3 },
        ),
{
    let ghost full = battery_row_of(segments as int, filled as int);
    let mut v: Vec<BatteryGlyph> = Vec::new();
    if width == 0 {
        assert(v@ =~= full.take(0));
        return v;
    }
    v.push(BatteryGlyph::Open);
    let mut i: u16 = 0;
    while i < segments && (v.len() as u16) < width
        invariant
            full == battery_row_of(segments as int, filled as int),
            i <= segments,
            v@.len() == i + 1,
            v@.len() <= width,
            v@ =~= full.take(i + 1),
        decreases segments - i,
    {
        assert(full[i + 1] == (if i < filled {
            BatteryGlyph::Full
        } else {
            BatteryGlyph::Empty
        }));
        if i < filled {
            v.push(BatteryGlyph::Full);
        } else {
            v.push(BatteryGlyph::Empty);
        }
        assert(v@ =~= full.take(i + 2));
        i = i + 1;
    }
    if i == segments && (v.len() as u16) < width {
        v.push(BatteryGlyph::Close);
        assert(v@ =~= full.take(segments + 2));
        if (v.len() as u16) < width {
            v.push(BatteryGlyph::Nub);
            assert(v@ =~= full.take(segments + 3));
        }
    }
    v
}

} // verus!
