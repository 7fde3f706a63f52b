//! **DigitalClock**: a seven-segment `HH:MM:SS` readout.
//!
//! Digits are drawn from `█` on-segments over `░` off-segments, 3 columns by
//! 5 rows each, with a blinking two-dot colon between the pairs: 20 columns by
//! 5 rows in all. A smaller area degrades to plain `HH:MM:SS` text. The app
//! supplies the time; [`DigitalClockState`] only drives the colon blink.

use vstd::prelude::*;

use crate::text::push_char;
use crate::theme::Theme;
use crate::widgets::caret::{blink_on, blink_visible};
use crate::widgets::countdown_timer::{push_two_digits, two_digits};

verus! {

/// Columns of the seven-segment display.
pub const SEG_W: u16 = 20;

/// Rows of the seven-segment display.
pub const SEG_H: u16 = 5;

/// Whether segment `seg` (`0=a` top, `1=b` top-right, `2=c` bottom-right,
/// `3=d` bottom, `4=e` bottom-left, `5=f` top-left, `6=g` middle) is lit for
/// digit `d`.
pub open spec fn segment_on(d: int, seg: int) -> bool {
    let bits: Seq<bool> = if d == 0 {
        seq![true, true, true, true, true, true, false]
    } else if d == 1 {
        seq![false, true, true, false, false, false, false]
    } else if d == 2 {
        seq![true, true, false, true, true, false, true]
    } else if d == 3 {
        seq![true, true, true, true, false, false, true]
    } else if d == 4 {
        seq![false, true, true, false, false, true, true]
    } else if d == 5 {
        seq![true, false, true, true, false, true, true]
    } else if d == 6 {
        seq![true, false, true, true, true, true, true]
    } else if d == 7 {
        seq![true, true, true, false, false, false, false]
    } else if d == 8 {
        seq![true, true, true, true, true, true, true]
    } else {
        seq![true, true, true, true, false, true, true]
    };
    bits[seg]
}

/// The segment a `(row, col)` cell of a 3×5 digit belongs to, if any.
pub open spec fn cell_segment(row: int, col: int) -> Option<int> {
    if row == 0 {
        Some(0)
    } else if row == 1 && col == 0 {
        Some(5)
    } else if row == 1 && col == 2 {
        Some(1)
    } else if row == 2 {
        Some(6)
    } else if row == 3 && col == 0 {
        Some(4)
    } else if row == 3 && col == 2 {
        Some(2)
    } else if row == 4 {
        Some(3)
    } else {
        None
    }
}

fn segment_on_exec(d: u32, seg: u32) -> (b: bool)
    requires
        d < 10,
        seg < 7,
    ensures
        b == segment_on(d as int, seg as int),
{
    let bits: [bool; 7] = if d == 0 {
        [true, true, true, true, true, true, false]
    } else if d == 1 {
        [false, true, true, false, false, false, false]
    } else if d == 2 {
        [true, true, false, true, true, false, true]
    } else if d == 3 {
        [true, true, true, true, false, false, true]
    } else if d == 4 {
        [false, true, true, false, false, true, true]
    } else if d == 5 {
        [true, false, true, true, false, true, true]
    } else if d == 6 {
        [true, false, true, true, true, true, true]
    } else if d == 7 {
        [true, true, true, false, false, false, false]
    } else if d == 8 {
        [true, true, true, true, true, true, true]
    } else {
        [true, true, true, true, false, true, true]
    };
    bits[seg as usize]
}

/// Visual form of a [`DigitalClock`].
#[derive(Debug, Clone, Copy, PartialEq, Eq, Structural)]
pub enum DigitalClockShape {
    /// Seven-segment block digits (the default; needs 20×5).
    Segment,
    /// Plain `HH:MM:SS` text.
    Plain,
}

impl Default for DigitalClockShape {
    fn default() -> (s: DigitalClockShape)
        ensures
            s == DigitalClockShape::Segment,
    {
        DigitalClockShape::Segment
    }
}

/// A sci-fi digital clock readout.
#[derive(Debug, Clone, Copy)]
pub struct DigitalClock {
    /// Hours (only the last two digits render in the segment form).
    pub hours: u32,
    /// Minutes.
    pub mins: u32,
    /// Seconds.
    pub secs: u32,
    /// Display form.
    pub shape: DigitalClockShape,
    /// Theme whose palette drives colors.
    pub theme: Theme,
}

/// The six digits the segment form shows: `H H M M S S` (tens and units of
/// each field, modulo 10).
pub open spec fn clock_digit(c: DigitalClock, i: int) -> int {
    if i == 0 {
        ((c.hours / 10) % 10) as int
    } else if i == 1 {
        (c.hours % 10) as int
    } else if i == 2 {
        ((c.mins / 10) % 10) as int
    } else if i == 3 {
        (c.mins % 10) as int
    } else if i == 4 {
        ((c.secs / 10) % 10) as int
    } else {
        (c.secs % 10) as int
    }
}

/// Left column of each of the six digits.
pub open spec fn digit_x(i: int) -> int {
    if i == 0 {
        0
    } else if i == 1 {
        3
    } else if i == 2 {
        7
    } else if i == 3 {
        10
    } else if i == 4 {
        14
    } else {
        17
    }
}

/// What the segment form draws at `(row, col)` of its 20×5 block: `Some(true)`
/// for a lit cell (`█`, accent), `Some(false)` for a dark one (`░`, muted),
/// `None` for an untouched cell. Colons sit in columns 6 and 13, rows 1 and 3.
pub open spec fn segment_cell(c: DigitalClock, colon_on: bool, row: int, col: int) -> Option<bool> {
    if col == 6 || col == 13 {
        if row == 1 || row == 3 {
            Some(colon_on)
        } else {
            None
        }
    } else {
        let i = if col < 3 {
            0
        } else if col < 6 {
            1
        } else if col < 10 {
            2
        } else if col < 13 {
            3
        } else if col < 17 {
            4
        } else {
            5
        };
        match cell_segment(row, col - digit_x(i)) {
            Some(seg) => Some(segment_on(clock_digit(c, i), seg)),
            None => None,
        }
    }
}

/// `HH<sep>MM<sep>SS` with each field zero-padded to two digits; only the
/// last two digits of the hours show.
pub open spec fn plain_text(c: DigitalClock, sep: char) -> Seq<char> {
    two_digits((c.hours % 100) as nat) + seq![sep] + two_digits(c.mins as nat) + seq![sep] + two_digits(
        c.secs as nat,
    )
}

impl DigitalClock {
    /// A clock showing `hours:mins:secs`, segment form, default theme.
    pub fn new(hours: u32, mins: u32, secs: u32) -> (c: DigitalClock)
        ensures
            c.hours == hours,
            c.mins == mins,
            c.secs == secs,
            c.shape == DigitalClockShape::Segment,
            c.theme == Theme::Cyberpunk,
    {
        DigitalClock {
            hours,
            mins,
            secs,
            shape: DigitalClockShape::Segment,
            theme: Theme::Cyberpunk,
        }
    }

    /// Set the display form.
    pub fn shape(self, shape: DigitalClockShape) -> (c: DigitalClock)
        ensures
            c == (DigitalClock { shape, ..self }),
    {
        DigitalClock { shape, ..self }
    }

    /// Set the theme.
    pub fn theme(self, theme: Theme) -> (c: DigitalClock)
        ensures
            c == (DigitalClock { theme, ..self }),
    {
        DigitalClock { theme, ..self }
    }

    /// Whether the colon is lit (it blinks on the shared cadence).
    pub fn colon_on(state: &DigitalClockState) -> (b: bool)
        ensures
            b == blink_on(state.tick),
    {
        blink_visible(state.tick)
    }

    /// Whether an area is large enough for the segment form: the segment form
    /// is drawn only when chosen and the area is at least 20×5.
    pub fn uses_segments(&self, width: u16, height: u16) -> (b: bool)
        ensures
            b == (self.shape == DigitalClockShape::Segment && width >= SEG_W && height
                >= SEG_H),
    {
        self.shape == DigitalClockShape::Segment && width >= SEG_W && height >= SEG_H
    }

    /// The cell at `(row, col)` of the segment block (see [`segment_cell`]).
    pub fn segment_cell(&self, colon_on: bool, row: u16, col: u16) -> (r: Option<bool>)
        requires
            row < SEG_H,
            col < SEG_W,
        ensures
            r == segment_cell(*self, colon_on, row as int, col as int),
    {
        if col == 6 || col == 13 {
            if row == 1 || row == 3 {
                return Some(colon_on);
            } else {
                return None;
            }
        }
        let (i, d): (u32, u32) = if col < 3 {
            (0, (self.hours / 10) % 10)
        } else if col < 6 {
            (1, self.hours % 10)
        } else if col < 10 {
            (2, (self.mins / 10) % 10)
        } else if col < 13 {
            (3, self.mins % 10)
        } else if col < 17 {
            (4, (self.secs / 10) % 10)
        } else {
            (5, self.secs % 10)
        };
        let x: u16 = if i == 0 {
            0
        } else if i == 1 {
            3
        } else if i == 2 {
            7
        } else if i == 3 {
            10
        } else if i == 4 {
            14
        } else {
            17
        };
        let dc = col - x;
        let seg: Option<u32> = if row == 0 {
            Some(0)
        } else if row == 1 && dc == 0 {
            Some(5)
        } else if row == 1 && dc == 2 {
            Some(1)
        } else if row == 2 {
            Some(6)
        } else if row == 3 && dc == 0 {
            Some(4)
        } else if row == 3 && dc == 2 {
            Some(2)
        } else if row == 4 {
            Some(3)
        } else {
            None
        };
        match seg {
            Some(s) => Some(segment_on_exec(d, s)),
            None => None,
        }
    }

    /// The plain readout: `HH:MM:SS` (the last two digits of the hours), with
    /// the colons blanked on the dark half
    /// of the blink.
    pub fn plain_text(&self, state: &DigitalClockState) -> (s: String)
        ensures
            s@ == plain_text(*self, if blink_on(state.tick) { ':' } else { ' ' }),
    {
        let sep = if blink_visible(state.tick) {
            ':'
        } else {
            ' '
        };
        let mut s = String::new();
        push_two_digits(&mut s, (self.hours % 100) as u64);
        push_char(&mut s, sep);
        push_two_digits(&mut s, self.mins as u64);
        push_char(&mut s, sep);
        push_two_digits(&mut s, self.secs as u64);
        assert(s@ =~= plain_text(*self, sep));
        s
    }
}

/// Mutable state for [`DigitalClock`]: the colon blink clock.
#[derive(Debug, Clone, Copy)]
pub struct DigitalClockState {
    /// Animation clock, advanced once per frame.
    pub tick: u64,
}

impl Default for DigitalClockState {
    fn default() -> (s: DigitalClockState)
        ensures
            s.tick == 0,
    {
        DigitalClockState { tick: 0 }
    }
}

impl DigitalClockState {
    /// A state at tick 0 (colon visible).
    pub fn new() -> (s: DigitalClockState)
        ensures
            s.tick == 0,
    {
        DigitalClockState { tick: 0 }
    }

    /// Advance the clock one tick (wrapping).
    pub fn tick(&mut self)
        ensures
            final(self).tick == (if old(self).tick == u64::MAX {
                0
            } else {
                (old(self).tick + 1) as u64
            }),
    {
        self.tick = self.tick.wrapping_add(1);
    }
}

} // verus!
