//! **CountdownTimer**: an urgent `MM:SS` countdown.
//!
//! Shows the remaining time as `MM:SS`, colored by urgency: at most
//! [`ALERT_SECS`] seconds is alert (and, in the default shape, blinks), at most
//! [`WARN_SECS`] is warn, anything above is normal. The app decrements
//! `remaining` once per second; [`CountdownTimerState::tick`] drives the blink.

use vstd::prelude::*;

use crate::text::push_char;
use crate::theme::{Level, Theme};
use crate::widgets::caret::{blink_on, blink_visible};

verus! {

/// At or below this many seconds the timer is urgent (alert).
pub const ALERT_SECS: u64 = 10;

/// At or below this many seconds the timer is cautionary (warn).
pub const WARN_SECS: u64 = 30;

/// Blink behavior of a [`CountdownTimer`] while urgent.
#[derive(Debug, Clone, Copy, PartialEq, Eq, Structural)]
pub enum CountdownTimerShape {
    /// Blink the readout while urgent (the default).
    Blink,
    /// Never blink.
    Steady,
}

impl Default for CountdownTimerShape {
    fn default() -> (s: CountdownTimerShape)
        ensures
            s == CountdownTimerShape::Blink,
    {
        CountdownTimerShape::Blink
    }
}

/// A sci-fi countdown timer. The remaining count lives in
/// [`CountdownTimerState`].
#[derive(Debug, Clone, Copy)]
pub struct CountdownTimer {
    /// Blink behavior while urgent.
    pub shape: CountdownTimerShape,
    /// Theme whose palette drives colors.
    pub theme: Theme,
}

impl Default for CountdownTimer {
    fn default() -> (t: CountdownTimer)
        ensures
            t.shape == CountdownTimerShape::Blink,
            t.theme == Theme::Cyberpunk,
    {
        CountdownTimer { shape: CountdownTimerShape::Blink, theme: Theme::Cyberpunk }
    }
}

/// The urgency level of a remaining-second count.
pub open spec fn countdown_level(remaining: u64) -> Level {
    if remaining <= ALERT_SECS {
        Level::Alert
    } else if remaining <= WARN_SECS {
        Level::Warn
    } else {
        Level::Normal
    }
}

/// The urgency bands: ten seconds or less is alert, eleven to thirty is
/// warn, more than thirty is normal; urgency never drops as the count
/// runs down.
pub proof fn lemma_countdown_bands(remaining: u64, later: u64)
    ensures
        ALERT_SECS == 10 && WARN_SECS == 30,
        remaining <= 10 ==> countdown_level(remaining) == Level::Alert,
        10 < remaining <= 30 ==> countdown_level(remaining) == Level::Warn,
        remaining > 30 ==> countdown_level(remaining) == Level::Normal,
        later <= remaining && countdown_level(remaining) == Level::Alert ==> countdown_level(later)
            == Level::Alert,
        later <= remaining && countdown_level(remaining) == Level::Warn ==> countdown_level(later)
            != Level::Normal,
{
}

/// The ASCII digit of `d` (`d < 10`).
pub open spec fn digit_char(d: int) -> char {
    (d + 48) as char
}

/// Two-digit zero-padded decimal of `n`; values of 100 and more print in full
/// (as `format!("{:02}")` does).
pub open spec fn two_digits(n: nat) -> Seq<char>
    decreases n,
{
    if n < 10 {
        seq!['0', digit_char(n as int)]
    } else if n < 100 {
        seq![digit_char((n / 10) as int), digit_char((n % 10) as int)]
    } else {
        decimal(n / 10).push(digit_char((n % 10) as int))
    }
}

/// Decimal digits of `n` (no padding).
pub open spec fn decimal(n: nat) -> Seq<char>
    decreases n,
{
    if n < 10 {
        seq![digit_char(n as int)]
    } else {
        decimal(n / 10).push(digit_char((n % 10) as int))
    }
}

/// `MM:SS` for a remaining-second count (minutes may exceed two digits).
pub open spec fn mmss(remaining: u64) -> Seq<char> {
    two_digits((remaining / 60) as nat) + seq![':'] + two_digits((remaining % 60) as nat)
}

/// Append the decimal digits of `n`.
pub fn push_decimal(s: &mut String, n: u64)
    ensures
        final(s)@ == old(s)@ + decimal(n as nat),
    decreases n,
{
    if n >= 10 {
        push_decimal(s, n / 10);
    }
    push_char(s, ((n % 10) as u8 + 48) as char);
    assert(final(s)@ =~= old(s)@ + decimal(n as nat));
}

/// Append `n` zero-padded to two digits.
pub fn push_two_digits(s: &mut String, n: u64)
    ensures
        final(s)@ == old(s)@ + two_digits(n as nat),
{
    if n < 10 {
        push_char(s, '0');
        push_char(s, (n as u8 + 48) as char);
        assert(final(s)@ =~= old(s)@ + two_digits(n as nat));
    } else if n < 100 {
        push_char(s, ((n / 10) as u8 + 48) as char);
        push_char(s, ((n % 10) as u8 + 48) as char);
        assert(final(s)@ =~= old(s)@ + two_digits(n as nat));
    } else {
        push_decimal(s, n / 10);
        push_char(s, ((n % 10) as u8 + 48) as char);
        assert(final(s)@ =~= old(s)@ + two_digits(n as nat));
    }
}

impl CountdownTimer {
    /// A countdown timer with the default shape and theme.
    pub fn new() -> (t: CountdownTimer)
        ensures
            t.shape == CountdownTimerShape::Blink,
            t.theme == Theme::Cyberpunk,
    {
        CountdownTimer::default()
    }

    /// Set the blink behavior.
    pub fn shape(self, shape: CountdownTimerShape) -> (t: CountdownTimer)
        ensures
            t == (CountdownTimer { shape, ..self }),
    {
        CountdownTimer { shape, ..self }
    }

    /// Set the theme.
    pub fn theme(self, theme: Theme) -> (t: CountdownTimer)
        ensures
            t == (CountdownTimer { theme, ..self }),
    {
        CountdownTimer { theme, ..self }
    }

    /// The urgency level of a remaining-second count.
    pub fn level_for(remaining: u64) -> (l: Level)
        ensures
            l == countdown_level(remaining),
    {
        if remaining <= ALERT_SECS {
            Level::Alert
        } else if remaining <= WARN_SECS {
            Level::Warn
        } else {
            Level::Normal
        }
    }

    /// The readout and its level: `MM:SS` in the level of the remaining
    /// count, or as many spaces while an urgent, non-zero count blinks off
    /// (blinking shape, dark half of the blink cycle).
    pub fn readout(&self, state: &CountdownTimerState) -> (r: (String, Level))
        ensures
            r.1 == countdown_level(state.remaining),
            (state.remaining > 0 && state.remaining <= ALERT_SECS && self.shape
                == CountdownTimerShape::Blink && !blink_on(state.blink_tick)) ==> r.0@ == Seq::new(
                mmss(state.remaining).len(),
                |i: int| ' ',
            ),
            !(state.remaining > 0 && state.remaining <= ALERT_SECS && self.shape
                == CountdownTimerShape::Blink && !blink_on(state.blink_tick)) ==> r.0@ == mmss(
                state.remaining,
            ),
    {
        let mut text = String::new();
        push_two_digits(&mut text, state.remaining / 60);
        push_char(&mut text, ':');
        push_two_digits(&mut text, state.remaining % 60);
        assert(text@ =~= mmss(state.remaining));
        let level = Self::level_for(state.remaining);
        let urgent = state.remaining > 0 && state.remaining <= ALERT_SECS;
        let blink_off = urgent && self.shape == CountdownTimerShape::Blink && !blink_visible(
            state.blink_tick,
        );
        if blink_off {
            let n = crate::text::char_count(text.as_str());
            let mut blank = String::new();
            let mut i: usize = 0;
            while i < n
                invariant
                    i <= n,
                    blank@ == Seq::new(i as nat, |k: int| ' '),
                decreases n - i,
            {
                push_char(&mut blank, ' ');
                i = i + 1;
                assert(blank@ =~= Seq::new(i as nat, |k: int| ' '));
            }
            (blank, level)
        } else {
            (text, level)
        }
    }
}

/// Mutable state for [`CountdownTimer`].
#[derive(Debug, Clone, Copy)]
pub struct CountdownTimerState {
    /// Seconds remaining; the app decrements this each second.
    pub remaining: u64,
    /// Animation clock, advanced once per frame (drives the urgent blink).
    pub blink_tick: u64,
}

impl CountdownTimerState {
    /// A state with `remaining` seconds, blink clock at 0.
    pub fn new(remaining: u64) -> (s: CountdownTimerState)
        ensures
            s.remaining == remaining,
            s.blink_tick == 0,
    {
        CountdownTimerState { remaining, blink_tick: 0 }
    }

    /// Advance the blink clock one tick (wrapping).
    pub fn tick(&mut self)
        ensures
            final(self).remaining == old(self).remaining,
            final(self).blink_tick == (if old(self).blink_tick == u64::MAX {
                0
            } else {
                (old(self).blink_tick + 1) as u64
            }),
    {
        self.blink_tick = self.blink_tick.wrapping_add(1);
    }

    /// Whether the countdown has reached zero.
    pub fn done(&self) -> (b: bool)
        ensures
            b == (self.remaining == 0),
    {
        self.remaining == 0
    }

    /// Whether the blinking readout is in the visible half of its cycle.
    pub fn blink_visible(&self) -> (b: bool)
        ensures
            b == blink_on(self.blink_tick),
    {
        blink_visible(self.blink_tick)
    }
}

impl Default for CountdownTimerState {
    fn default() -> (s: CountdownTimerState)
        ensures
            s.remaining == 0,
            s.blink_tick == 0,
    {
        CountdownTimerState::new(0)
    }
}

} // verus!
