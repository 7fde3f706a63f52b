//! **NumberStepper**: a bounded integer spinner, `◂ 42 ▸`.
//!
//! Arrow keys nudge the value by `step` within `[min, max]`; `Home` / `End`
//! jump to the bounds.

use vstd::prelude::*;

use crate::keys::{KeyCode, KeyEvent};
use crate::text::push_char;
use crate::theme::Theme;
use crate::widgets::countdown_timer::{decimal, push_decimal};

verus! {

/// Default lower bound.
pub const DEFAULT_MIN: i64 = 0;

/// Default upper bound.
pub const DEFAULT_MAX: i64 = 100;

/// Default step size.
pub const DEFAULT_STEP: i64 = 1;

/// Marker-glyph pair of a [`NumberStepper`].
#[derive(Debug, Clone, Copy, PartialEq, Eq, Structural)]
pub enum NumberStepperShape {
    /// `◂` / `▸` (the default).
    Chevron,
    /// `◀` / `▶`.
    Arrow,
    /// `|` / `|`.
    Pipe,
}

impl Default for NumberStepperShape {
    fn default() -> (s: NumberStepperShape)
        ensures
            s == NumberStepperShape::Chevron,
    {
        NumberStepperShape::Chevron
    }
}

/// The decrement marker of each shape.
pub open spec fn dec_glyph(s: NumberStepperShape) -> char {
    match s {
        NumberStepperShape::Chevron => '◂',
        NumberStepperShape::Arrow => '◀',
        NumberStepperShape::Pipe => '|',
    }
}

/// The increment marker of each shape.
pub open spec fn inc_glyph(s: NumberStepperShape) -> char {
    match s {
        NumberStepperShape::Chevron => '▸',
        NumberStepperShape::Arrow => '▶',
        NumberStepperShape::Pipe => '|',
    }
}

impl NumberStepperShape {
    /// The decrement (left) marker glyph.
    pub fn dec(self) -> (c: char)
        ensures
            c == dec_glyph(self),
    {
        match self {
            NumberStepperShape::Chevron => '◂',
            NumberStepperShape::Arrow => '◀',
            NumberStepperShape::Pipe => '|',
        }
    }

    /// The increment (right) marker glyph.
    pub fn inc(self) -> (c: char)
        ensures
            c == inc_glyph(self),
    {
        match self {
            NumberStepperShape::Chevron => '▸',
            NumberStepperShape::Arrow => '▶',
            NumberStepperShape::Pipe => '|',
        }
    }
}

/// A sci-fi number stepper. The current value lives in
/// [`NumberStepperState`].
#[derive(Debug, Clone, Copy)]
pub struct NumberStepper {
    /// Inclusive lower bound.
    pub min: i64,
    /// Inclusive upper bound.
    pub max: i64,
    /// Step per nudge.
    pub step: i64,
    /// Marker-glyph form.
    pub shape: NumberStepperShape,
    /// Theme whose palette drives colors.
    pub theme: Theme,
}

impl Default for NumberStepper {
    fn default() -> (n: NumberStepper)
        ensures
            n.min == DEFAULT_MIN,
            n.max == DEFAULT_MAX,
            n.step == DEFAULT_STEP,
            n.shape == NumberStepperShape::Chevron,
            n.theme == Theme::Cyberpunk,
    {
        NumberStepper {
            min: DEFAULT_MIN,
            max: DEFAULT_MAX,
            step: DEFAULT_STEP,
            shape: NumberStepperShape::Chevron,
            theme: Theme::Cyberpunk,
        }
    }
}

/// Whether a key decrements.
pub open spec fn is_dec_key(k: KeyCode) -> bool {
    k == KeyCode::Left || k == KeyCode::Down
}

/// Whether a key increments.
pub open spec fn is_inc_key(k: KeyCode) -> bool {
    k == KeyCode::Right || k == KeyCode::Up
}

/// The value after a key press: a nudge by `step`, clamped into
/// `[min, max]`; `Home` / `End` jump to the bounds; other keys leave it.
pub open spec fn stepped(n: NumberStepper, value: i64, k: KeyCode) -> int {
    if is_dec_key(k) {
        clamp_int(value - n.step, n.min as int, n.max as int)
    } else if is_inc_key(k) {
        clamp_int(value + n.step, n.min as int, n.max as int)
    } else if k == KeyCode::Home {
        n.min as int
    } else if k == KeyCode::End {
        n.max as int
    } else {
        value as int
    }
}

/// `v` clamped into `[lo, hi]` (for `lo <= hi`; otherwise the lower bound is
/// tested first).
pub open spec fn clamp_int(v: int, lo: int, hi: int) -> int {
    if v < lo {
        lo
    } else if v > hi {
        hi
    } else {
        v
    }
}

/// Key presses keep a value that starts in `[min, max]` inside it.
pub proof fn lemma_stepped_stays_in_range(n: NumberStepper, value: i64, k: KeyCode)
    requires
        n.min <= value <= n.max,
    ensures
        n.min <= stepped(n, value, k) <= n.max,
{
}

/// What each key does to the value: `Left` and `Down` both take one step
/// down and `Right` and `Up` one step up, the result clamped into
/// `[min, max]` (the lower bound tested first); `Home` / `End` jump to
/// `min` / `max`; other keys keep the value. Inside the range, a step down
/// from above `min` lowers the value and a step up from below `max` raises
/// it (for a positive step).
pub proof fn lemma_stepper_keys(n: NumberStepper, v: i64, k: KeyCode)
    ensures
        (k == KeyCode::Left || k == KeyCode::Down) ==> stepped(n, v, k) == (if v - n.step < n.min {
            n.min as int
        } else if v - n.step > n.max {
            n.max as int
        } else {
            v - n.step
        }),
        (k == KeyCode::Right || k == KeyCode::Up) ==> stepped(n, v, k) == (if v + n.step < n.min {
            n.min as int
        } else if v + n.step > n.max {
            n.max as int
        } else {
            v + n.step
        }),
        k == KeyCode::Home ==> stepped(n, v, k) == n.min,
        k == KeyCode::End ==> stepped(n, v, k) == n.max,
        !(k == KeyCode::Left || k == KeyCode::Down || k == KeyCode::Right || k == KeyCode::Up || k
            == KeyCode::Home || k == KeyCode::End) ==> stepped(n, v, k) == v,
        stepped(n, v, KeyCode::Down) == stepped(n, v, KeyCode::Left),
        stepped(n, v, KeyCode::Up) == stepped(n, v, KeyCode::Right),
        n.min < v <= n.max && n.step > 0 && (k == KeyCode::Left || k == KeyCode::Down) ==> n.min
            <= stepped(n, v, k) < v,
        n.min <= v < n.max && n.step > 0 && (k == KeyCode::Right || k == KeyCode::Up) ==> v < stepped(
            n,
            v,
            k,
        ) <= n.max,
{
}

/// `v` clamped into `[lo, hi]` (`lo <= hi`).
pub open spec fn clamp_i64(v: i64, lo: i64, hi: i64) -> i64 {
    if v < lo {
        lo
    } else if v > hi {
        hi
    } else {
        v
    }
}

/// Signed decimal digits of `v`.
pub open spec fn signed_decimal(v: int) -> Seq<char> {
    if v < 0 {
        seq!['-'] + decimal((-v) as nat)
    } else {
        decimal(v as nat)
    }
}

/// Append the signed decimal digits of `v`.
pub fn push_signed(s: &mut String, v: i64)
    ensures
        final(s)@ == old(s)@ + signed_decimal(v as int),
{
    if v < 0 {
        push_char(s, '-');
        let m: u64 = if v == i64::MIN {
            0x8000_0000_0000_0000u64
        } else {
            (-v) as u64
        };
        push_decimal(s, m);
        assert(final(s)@ =~= old(s)@ + signed_decimal(v as int));
    } else {
        push_decimal(s, v as u64);
    }
}

/// `v` clamped into `[lo, hi]`, the lower bound tested first.
fn clamp_value(v: i64, lo: i64, hi: i64) -> (r: i64)
    ensures
        r == clamp_int(v as int, lo as int, hi as int),
{
    if v < lo {
        lo
    } else if v > hi {
        hi
    } else {
        v
    }
}

impl NumberStepper {
    /// A stepper over `0..=100`, step 1, default shape and theme.
    pub fn new() -> (n: NumberStepper)
        ensures
            n.min == DEFAULT_MIN,
            n.max == DEFAULT_MAX,
            n.step == DEFAULT_STEP,
            n.shape == NumberStepperShape::Chevron,
            n.theme == Theme::Cyberpunk,
    {
        NumberStepper::default()
    }

    /// Set the inclusive lower bound.
    pub fn min(self, min: i64) -> (n: NumberStepper)
        ensures
            n == (NumberStepper { min, ..self }),
    {
        NumberStepper { min, ..self }
    }

    /// Set the inclusive upper bound.
    pub fn max(self, max: i64) -> (n: NumberStepper)
        ensures
            n == (NumberStepper { max, ..self }),
    {
        NumberStepper { max, ..self }
    }

    /// Set the per-nudge step.
    pub fn step(self, step: i64) -> (n: NumberStepper)
        ensures
            n == (NumberStepper { step, ..self }),
    {
        NumberStepper { step, ..self }
    }

    /// Set the marker-glyph form.
    pub fn shape(self, shape: NumberStepperShape) -> (n: NumberStepper)
        ensures
            n == (NumberStepper { shape, ..self }),
    {
        NumberStepper { shape, ..self }
    }

    /// Set the theme.
    pub fn theme(self, theme: Theme) -> (n: NumberStepper)
        ensures
            n == (NumberStepper { theme, ..self }),
    {
        NumberStepper { theme, ..self }
    }

    /// Apply a key press: `Left` / `Down` decrement by `step`, `Right` / `Up`
    /// increment, and the result is clamped into `[min, max]`; `Home` / `End`
    /// jump to `min` / `max`; other keys are ignored. The nudged value must fit in
    /// an `i64`.
    pub fn handle_key(&self, state: &mut NumberStepperState, key: KeyEvent)
        requires
            is_dec_key(key.code) ==> old(state).value - self.step >= i64::MIN && old(state).value
                - self.step <= i64::MAX,
            is_inc_key(key.code) ==> old(state).value + self.step >= i64::MIN && old(state).value
                + self.step <= i64::MAX,
        ensures
            final(state).value == stepped(*self, old(state).value, key.code),
    {
        match key.code {
            KeyCode::Left | KeyCode::Down => {
                state.value = clamp_value(state.value - self.step, self.min, self.max);
            },
            KeyCode::Right | KeyCode::Up => {
                state.value = clamp_value(state.value + self.step, self.min, self.max);
            },
            KeyCode::Home => state.value = self.min,
            KeyCode::End => state.value = self.max,
            _ => {},
        }
    }

    /// The value shown: the state's value clamped into `[min, max]`.
    pub fn shown_value(&self, state: &NumberStepperState) -> (v: i64)
        requires
            self.min <= self.max,
        ensures
            v == clamp_i64(state.value, self.min, self.max),
    {
        if state.value < self.min {
            self.min
        } else if state.value > self.max {
            self.max
        } else {
            state.value
        }
    }

    /// The readout: `<dec> <value> <inc>`, the value starting at the third
    /// char.
    pub fn content(&self, state: &NumberStepperState) -> (s: String)
        requires
            self.min <= self.max,
        ensures
            s@ == seq![dec_glyph(self.shape), ' '] + signed_decimal(
                clamp_i64(state.value, self.min, self.max) as int,
            ) + seq![' ', inc_glyph(self.shape)],
    {
        let v = self.shown_value(state);
        let mut s = String::new();
        push_char(&mut s, self.shape.dec());
        push_char(&mut s, ' ');
        push_signed(&mut s, v);
        push_char(&mut s, ' ');
        push_char(&mut s, self.shape.inc());
        assert(s@ =~= seq![dec_glyph(self.shape), ' '] + signed_decimal(v as int) + seq![
            ' ',
            inc_glyph(self.shape),
        ]);
        s
    }
}

/// Mutable state for [`NumberStepper`]: the current value.
#[derive(Debug, Clone, Copy)]
pub struct NumberStepperState {
    /// Current value (clamped into the stepper's range when shown).
    pub value: i64,
}

impl Default for NumberStepperState {
    fn default() -> (s: NumberStepperState)
        ensures
            s.value == 0,
    {
        NumberStepperState { value: 0 }
    }
}

impl NumberStepperState {
    /// A state at value 0.
    pub fn new() -> (s: NumberStepperState)
        ensures
            s.value == 0,
    {
        NumberStepperState { value: 0 }
    }
}

} // verus!
