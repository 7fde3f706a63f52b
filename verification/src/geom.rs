//! Cell rectangles and the frame insets widgets draw inside.

use vstd::prelude::*;

verus! {

/// A rectangle of terminal cells.
#[derive(Debug, Clone, Copy, PartialEq, Eq, Structural)]
pub struct Area {
    pub x: u16,
    pub y: u16,
    pub width: u16,
    pub height: u16,
}

/// `a + b`, saturating at `u16::MAX`.
pub open spec fn sat_add(a: int, b: int) -> u16 {
    if a + b > u16::MAX {
        u16::MAX
    } else {
        (a + b) as u16
    }
}

/// `a - b`, saturating at 0.
pub open spec fn sat_sub(a: int, b: int) -> u16 {
    if a - b < 0 {
        0
    } else {
        (a - b) as u16
    }
}

/// The zero-size area at the origin.
pub open spec fn empty_area() -> Area {
    Area { x: 0, y: 0, width: 0, height: 0 }
}

/// The interior of a one-cell border on every side: the corner moves in by
/// one (never past the far edge, never past `u16::MAX`), the extent shrinks
/// by two (never below zero).
pub open spec fn bordered_inner(a: Area) -> Area {
    Area {
        x: if a.width >= 1 { sat_add(a.x as int, 1) } else { a.x },
        y: if a.height >= 1 { sat_add(a.y as int, 1) } else { a.y },
        width: sat_sub(a.width as int, 2),
        height: sat_sub(a.height as int, 2),
    }
}

/// The area inside a one-cell border on every side.
pub fn bordered(a: Area) -> (r: Area)
    ensures
        r == bordered_inner(a),
{
    Area {
        x: if a.width >= 1 { a.x.saturating_add(1) } else { a.x },
        y: if a.height >= 1 { a.y.saturating_add(1) } else { a.y },
        width: a.width.saturating_sub(2),
        height: a.height.saturating_sub(2),
    }
}

} // verus!

verus! {

/// Side of the square a dial is drawn in: the shorter extent of its area.
pub open spec fn dial_side(a: Area) -> u16 {
    if a.width <= a.height {
        a.width
    } else {
        a.height
    }
}

/// The square a dial is drawn in: the top-left `side × side` square of the
/// area, `side` being its shorter extent.
pub fn dial_square(a: Area) -> (sq: Area)
    ensures
        sq == (Area { x: a.x, y: a.y, width: dial_side(a), height: dial_side(a) }),
{
    let side = if a.width <= a.height {
        a.width
    } else {
        a.height
    };
    Area { x: a.x, y: a.y, width: side, height: side }
}

/// The row of a dial's caption: the one just under its square, when that
/// row is still inside the area.
pub fn caption_row(a: Area) -> (r: Option<u16>)
    ensures
        r == (if dial_side(a) < a.height && a.y + dial_side(a) <= u16::MAX {
            Some((a.y + dial_side(a)) as u16)
        } else {
            None
        }),
{
    let sq = dial_square(a);
    if sq.width < a.height && a.y as u32 + sq.width as u32 <= 0xffff {
        Some(a.y + sq.width)
    } else {
        None
    }
}

} // verus!
