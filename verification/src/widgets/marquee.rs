//! **Marquee**: a scrolling ticker.
//!
//! The text runs along a belt of the text plus one screen-width of blank gap,
//! so it scrolls fully off before it re-enters. The belt advances one cell
//! every `speed` ticks, leftward or rightward.

use vstd::prelude::*;

use crate::text::chars_of;
use crate::theme::Theme;

verus! {

/// Default ticks per one-cell step.
pub const DEFAULT_SPEED: u32 = 2;

/// Scroll direction of a [`Marquee`].
#[derive(Debug, Clone, Copy, PartialEq, Eq, Structural)]
pub enum MarqueeShape {
    /// Scroll leftward (the default).
    Left,
    /// Scroll rightward.
    Right,
}

impl Default for MarqueeShape {
    fn default() -> (s: MarqueeShape)
        ensures
            s == MarqueeShape::Left,
    {
        MarqueeShape::Left
    }
}

/// A scrolling ticker.
#[derive(Debug, Clone)]
pub struct Marquee {
    /// The scrolling text.
    pub text: String,
    /// Ticks per one-cell step (0 behaves as 1).
    pub speed: u32,
    /// Scroll direction.
    pub shape: MarqueeShape,
    /// Theme whose palette drives colors.
    pub theme: Theme,
}

impl Default for Marquee {
    fn default() -> (m: Marquee)
        ensures
            m.text@.len() == 0,
            m.speed == DEFAULT_SPEED,
            m.shape == MarqueeShape::Left,
            m.theme == Theme::Cyberpunk,
    {
        Marquee {
            text: String::new(),
            speed: DEFAULT_SPEED,
            shape: MarqueeShape::Left,
            theme: Theme::Cyberpunk,
        }
    }
}

/// Offset of the belt at `tick`.
pub open spec fn belt_pos(shape: MarqueeShape, tick: u64, speed: u32, period: nat) -> nat {
    let raw: int = tick as int / (if speed == 0 { 1 } else { speed as int });
    match shape {
        MarqueeShape::Left => (raw % period as int) as nat,
        MarqueeShape::Right => ((period - raw % period as int) % period as int) as nat,
    }
}

/// The char a marquee shows in column `col`: belt position `(col + pos) mod
/// (text length + width)` holds a text char, or a blank in the gap.
pub open spec fn marquee_char(text: Seq<char>, width: nat, shape: MarqueeShape, tick: u64, speed: u32, col: int) -> char {
    let period = text.len() + width;
    let i = (col + belt_pos(shape, tick, speed, period)) % period as int;
    if i < text.len() {
        text[i]
    } else {
        ' '
    }
}

/// The belt loops: advancing the clock by one full period of steps (text
/// length plus width steps, each `max(speed, 1)` ticks) shows the same char
/// in every column, in both directions.
pub proof fn lemma_marquee_period(
    text: Seq<char>,
    width: nat,
    shape: MarqueeShape,
    t: u64,
    speed: u32,
    col: int,
)
    requires
        text.len() + width > 0,
        t + (if speed == 0 { 1int } else { speed as int }) * (text.len() + width) <= u64::MAX,
    ensures
        marquee_char(text, width, shape, t, speed, col) == marquee_char(
            text,
            width,
            shape,
            (t + (if speed == 0 { 1int } else { speed as int }) * (text.len() + width)) as u64,
            speed,
            col,
        ),
{
    let s: int = if speed == 0 {
        1
    } else {
        speed as int
    };
    let p: int = (text.len() + width) as int;
    let t2 = (t + s * p) as u64;
    vstd::arithmetic::div_mod::lemma_hoist_over_denominator(t as int, p, s as nat);
    assert(p * s == s * p) by (nonlinear_arith);
    assert(t2 as int / s == t as int / s + p);
    let raw = t as int / s;
    vstd::arithmetic::div_mod::lemma_mod_add_multiples_vanish(raw, p);
    assert((raw + p) % p == raw % p);
    assert(belt_pos(shape, t2, speed, p as nat) == belt_pos(shape, t, speed, p as nat));
}

impl Marquee {
    /// A marquee over `text` at the default speed, scrolling left.
    pub fn new(text: &str) -> (m: Marquee)
        ensures
            m.text@ == text@,
            m.speed == DEFAULT_SPEED,
            m.shape == MarqueeShape::Left,
            m.theme == Theme::Cyberpunk,
    {
        Marquee {
            text: String::from_str(text),
            speed: DEFAULT_SPEED,
            shape: MarqueeShape::Left,
            theme: Theme::Cyberpunk,
        }
    }

    /// Set the ticks per step.
    pub fn speed(self, speed: u32) -> (m: Marquee)
        ensures
            m == (Marquee { speed, ..self }),
    {
        Marquee { speed, ..self }
    }

    /// Set the scroll direction.
    pub fn shape(self, shape: MarqueeShape) -> (m: Marquee)
        ensures
            m == (Marquee { shape, ..self }),
    {
        Marquee { shape, ..self }
    }

    /// Set the theme.
    pub fn theme(self, theme: Theme) -> (m: Marquee)
        ensures
            m == (Marquee { theme, ..self }),
    {
        Marquee { theme, ..self }
    }

    /// The row of chars the marquee shows in a `width`-column area at the
    /// state's tick; empty for an empty text (nothing is drawn).
    pub fn row(&self, width: u16, state: &MarqueeState) -> (r: Vec<char>)
        ensures
            self.text@.len() == 0 ==> r@.len() == 0,
            self.text@.len() > 0 ==> r@.len() == width,
            self.text@.len() > 0 ==> forall|c: int|
                0 <= c < width ==> #[trigger] r@[c] == marquee_char(
                    self.text@,
                    width as nat,
                    self.shape,
                    state.tick,
                    self.speed,
                    c,
                ),
    {
        let chars = chars_of(self.text.as_str());
        let mut r: Vec<char> = Vec::new();
        if chars.len() == 0 {
            return r;
        }
        let len = chars.len() as u128;
        let period: u128 = len + width as u128;
        let sp: u64 = if self.speed == 0 {
            1
        } else {
            self.speed as u64
        };
        let raw = (state.tick / sp) as u128;
        let pos: u128 = match self.shape {
            MarqueeShape::Left => raw % period,
            MarqueeShape::Right => (period - raw % period) % period,
        };
        assert(pos == belt_pos(self.shape, state.tick, self.speed, period as nat));
        let mut col: u16 = 0;
        while col < width
            invariant
                col <= width,
                chars@ == self.text@,
                chars@.len() > 0,
                len == chars@.len(),
                len <= usize::MAX,
                period == len + width,
                pos < period,
                pos == belt_pos(self.shape, state.tick, self.speed, period as nat),
                r@.len() == col,
                forall|c: int|
                    0 <= c < col ==> #[trigger] r@[c] == marquee_char(
                        self.text@,
                        width as nat,
                        self.shape,
                        state.tick,
                        self.speed,
                        c,
                    ),
            decreases width - col,
        {
            let i = (col as u128 + pos) % period;
            let ch = if i < len {
                chars[i as usize]
            } else {
                ' '
            };
            r.push(ch);
            col = col + 1;
        }
        r
    }
}

/// Mutable state for [`Marquee`]: the animation clock.
#[derive(Debug, Clone, Copy)]
pub struct MarqueeState {
    /// Animation clock, advanced once per frame.
    pub tick: u64,
}

impl Default for MarqueeState {
    fn default() -> (s: MarqueeState)
        ensures
            s.tick == 0,
    {
        MarqueeState { tick: 0 }
    }
}

impl MarqueeState {
    /// A state at tick 0.
    pub fn new() -> (s: MarqueeState)
        ensures
            s.tick == 0,
    {
        MarqueeState { tick: 0 }
    }

    /// Advance the clock one tick (wrapping).
    pub fn tick(&mut self)
        ensures
            final(self).tick == (if old(self).tick == u64::MAX {
                0
            } else {
                (old(self).tick + 1) as u64
            }),
    {
        self.tick = self.tick.wrapping_add(1);
    }
}

} // verus!
