//! **GlitchText** glyph pools and the burst clock.
//!
//! Every [`REROLL_PERIOD`] ticks a new corruption burst is scheduled with a
//! life of [`BURST_LIFE`] ticks; while it lives, some positions of the text
//! show a random glyph from the shape's pool. Randomness is a deterministic
//! xorshift32 generator. The intensity-carrying widget, which decides how
//! many positions a burst corrupts, lives with the renderer.

use vstd::prelude::*;

verus! {

/// Ticks between burst re-rolls.
pub const REROLL_PERIOD: u32 = 6;

/// Ticks a burst stays on screen.
pub const BURST_LIFE: u32 = 3;

/// Non-zero seed of the xorshift generator.
pub const DEFAULT_SEED: u32 = 0x9E37_79B9;

/// Glyph pool of a glitch burst.
#[derive(Debug, Clone, Copy, PartialEq, Eq, Structural)]
pub enum GlitchShape {
    /// Half-width katakana plus symbols (the default).
    KatakanaNoise,
    /// `0` and `1`.
    Binary,
    /// Hex digits.
    Hex,
}

impl Default for GlitchShape {
    fn default() -> (s: GlitchShape)
        ensures
            s == GlitchShape::KatakanaNoise,
    {
        GlitchShape::KatakanaNoise
    }
}

/// The glyph pool of each shape.
pub open spec fn glitch_pool(s: GlitchShape) -> Seq<char> {
    match s {
        GlitchShape::KatakanaNoise => seq![
            'ﾊ', 'ﾐ', 'ﾋ', 'ｰ', 'ｳ', 'ｼ', 'ﾅ', 'ﾓ', 'ﾆ', 'ｻ', 'ﾜ', 'ﾂ', '#', '%', '&', '!', '?', '0',
            '1', '<', '>', '*', '+', '=', '~',
        ],
        GlitchShape::Binary => seq!['0', '1'],
        GlitchShape::Hex => seq![
            '0', '1', '2', '3', '4', '5', '6', '7', '8', '9', 'A', 'B', 'C', 'D', 'E', 'F',
        ],
    }
}

impl GlitchShape {
    /// The glyph pool a burst draws from.
    pub fn pool(self) -> (v: Vec<char>)
        ensures
            v@ == glitch_pool(self),
    {
        let v = match self {
            GlitchShape::KatakanaNoise => vec![
                'ﾊ', 'ﾐ', 'ﾋ', 'ｰ', 'ｳ', 'ｼ', 'ﾅ', 'ﾓ', 'ﾆ', 'ｻ', 'ﾜ', 'ﾂ', '#', '%', '&', '!', '?',
                '0', '1', '<', '>', '*', '+', '=', '~',
            ],
            GlitchShape::Binary => vec!['0', '1'],
            GlitchShape::Hex => vec![
                '0', '1', '2', '3', '4', '5', '6', '7', '8', '9', 'A', 'B', 'C', 'D', 'E', 'F',
            ],
        };
        assert(v@ =~= glitch_pool(self));
        v
    }
}

/// One xorshift32 step.
pub open spec fn xorshift(x: u32) -> u32 {
    let a = x ^ (x << 13u32);
    let b = a ^ (a >> 17u32);
    b ^ (b << 5u32)
}

/// Mutable state of a glitching text: the generator, the tick clock and the
/// current burst.
#[derive(Debug, Clone)]
pub struct GlitchTextState {
    prng: u32,
    tick: u32,
    life: u32,
    burst_len: usize,
    burst: Vec<(usize, char)>,
    shape: GlitchShape,
}

/// The burst life after a tick that brought the counter to `tick`: a fresh
/// [`BURST_LIFE`] on every [`REROLL_PERIOD`]-th tick, else one less (not
/// below zero).
pub open spec fn life_step(tick: u32, life: u32) -> u32 {
    if tick % REROLL_PERIOD == 0 {
        BURST_LIFE
    } else if life > 0 {
        (life - 1) as u32
    } else {
        0
    }
}

/// The burst life after `k` ticks from a fresh state (life 0, counter 0).
pub open spec fn life_after(k: nat) -> u32
    decreases k,
{
    if k == 0 {
        0
    } else {
        life_step(k as u32, life_after((k - 1) as nat))
    }
}

/// The burst schedule from [`GlitchTextState::default`] (life 0, counter 0):
/// after `k` calls of [`GlitchTextState::tick`], whose contract steps the
/// life by [`life_step`], the life is [`life_after`]`(k)`; a burst lives
/// exactly on the ticks `k >= 6` with `k % 6` in `{0, 1, 2}`, its life
/// counting down from 3 (for `k` up to `u32::MAX`, before the counter
/// wraps).
pub proof fn lemma_life_after(k: nat)
    requires
        k <= u32::MAX,
    ensures
        life_after(k) == (if k >= 6 && k % 6 < 3 { (3 - k % 6) as u32 } else { 0u32 }),
        life_after(k) > 0 <==> (k >= 6 && k % 6 < 3),
    decreases k,
{
    if k > 0 {
        lemma_life_after((k - 1) as nat);
        assert((k as u32) as nat == k);
    }
}

impl Default for GlitchTextState {
    fn default() -> (s: GlitchTextState)
        ensures
            s.prng_value() == DEFAULT_SEED,
            s.tick_value() == 0,
            s.life_value() == 0,
            s.burst_len_value() == 0,
            s.burst_value().len() == 0,
            s.shape_value() == GlitchShape::KatakanaNoise,
    {
        GlitchTextState {
            prng: DEFAULT_SEED,
            tick: 0,
            life: 0,
            burst_len: 0,
            burst: Vec::new(),
            shape: GlitchShape::KatakanaNoise,
        }
    }
}

impl GlitchTextState {
    /// Generator state.
    pub closed spec fn prng_value(&self) -> u32 {
        self.prng
    }

    /// Tick clock.
    pub closed spec fn tick_value(&self) -> u32 {
        self.tick
    }

    /// Ticks the current burst has left.
    pub closed spec fn life_value(&self) -> u32 {
        self.life
    }

    /// Text length the current burst was rolled for.
    pub closed spec fn burst_len_value(&self) -> usize {
        self.burst_len
    }

    /// The current burst: `(position, glyph)` pairs.
    pub closed spec fn burst_value(&self) -> Seq<(usize, char)> {
        self.burst@
    }

    /// The shape whose pool bursts draw from.
    pub closed spec fn shape_value(&self) -> GlitchShape {
        self.shape
    }

    /// Advance one tick (wrapping): an active burst loses one tick of life;
    /// on every [`REROLL_PERIOD`]-th tick the stored burst is cleared and a
    /// fresh life of [`BURST_LIFE`] ticks is granted (the next render rolls
    /// the new burst).
    pub fn tick(&mut self)
        ensures
            final(self).tick_value() == (if old(self).tick_value() == u32::MAX {
                0
            } else {
                (old(self).tick_value() + 1) as u32
            }),
            final(self).prng_value() == old(self).prng_value(),
            final(self).shape_value() == old(self).shape_value(),
            final(self).life_value() == life_step(final(self).tick_value(), old(self).life_value()),
            final(self).tick_value() % REROLL_PERIOD == 0 ==> final(self).life_value() == BURST_LIFE
                && final(self).burst_value().len() == 0 && final(self).burst_len_value() == 0,
            final(self).tick_value() % REROLL_PERIOD != 0 ==> final(self).life_value() == (if old(
                self,
            ).life_value() > 0 {
                (old(self).life_value() - 1) as u32
            } else {
                0
            }) && final(self).burst_value() == old(self).burst_value()
                && final(self).burst_len_value() == old(self).burst_len_value(),
    {
        self.tick = self.tick.wrapping_add(1);
        if self.life > 0 {
            self.life = self.life - 1;
        }
        if self.tick % REROLL_PERIOD == 0 {
            self.burst.clear();
            self.burst_len = 0;
            self.life = BURST_LIFE;
        }
    }

    /// Next value of the xorshift32 generator (the new generator state).
    pub fn next_u32(&mut self) -> (x: u32)
        ensures
            x == xorshift(old(self).prng_value()),
            final(self).prng_value() == x,
            final(self).tick_value() == old(self).tick_value(),
            final(self).life_value() == old(self).life_value(),
            final(self).burst_len_value() == old(self).burst_len_value(),
            final(self).burst_value() == old(self).burst_value(),
            final(self).shape_value() == old(self).shape_value(),
    {
        let mut x = self.prng;
        x = x ^ (x << 13u32);
        x = x ^ (x >> 17u32);
        x = x ^ (x << 5u32);
        self.prng = x;
        x
    }

    /// Current generator state.
    pub fn prng(&self) -> (x: u32)
        ensures
            x == self.prng_value(),
    {
        self.prng
    }

    /// Ticks the current burst has left (0 = clean text).
    pub fn life(&self) -> (l: u32)
        ensures
            l == self.life_value(),
    {
        self.life
    }

    /// Text length the current burst was rolled for.
    pub fn burst_len(&self) -> (n: usize)
        ensures
            n == self.burst_len_value(),
    {
        self.burst_len
    }

    /// Number of corrupted positions in the current burst.
    pub fn burst_count(&self) -> (n: usize)
        ensures
            n == self.burst_value().len(),
    {
        self.burst.len()
    }

    /// The shape whose pool bursts draw from.
    pub fn shape(&self) -> (s: GlitchShape)
        ensures
            s == self.shape_value(),
    {
        self.shape
    }

    /// Use `shape`'s glyph pool for future bursts.
    pub fn set_shape(&mut self, shape: GlitchShape)
        ensures
            final(self).shape_value() == shape,
            final(self).prng_value() == old(self).prng_value(),
            final(self).tick_value() == old(self).tick_value(),
            final(self).life_value() == old(self).life_value(),
            final(self).burst_len_value() == old(self).burst_len_value(),
            final(self).burst_value() == old(self).burst_value(),
    {
        self.shape = shape;
    }

    /// Install a freshly rolled burst for a text of `len` chars.
    pub fn set_burst(&mut self, len: usize, burst: Vec<(usize, char)>)
        ensures
            final(self).burst_len_value() == len,
            final(self).burst_value() == burst@,
            final(self).prng_value() == old(self).prng_value(),
            final(self).tick_value() == old(self).tick_value(),
            final(self).life_value() == old(self).life_value(),
            final(self).shape_value() == old(self).shape_value(),
    {
        self.burst_len = len;
        self.burst = burst;
    }

    /// The glyph the current burst shows at text position `i`, while the
    /// burst lives: the first burst entry at that position.
    pub fn glyph_at(&self, i: usize) -> (g: Option<char>)
        ensures
            self.life_value() == 0 ==> g is None,
            self.life_value() > 0 ==> (g is Some <==> exists|k: int|
                0 <= k < self.burst_value().len() && (#[trigger] self.burst_value()[k]).0 == i),
            g matches Some(c) ==> exists|k: int|
                0 <= k < self.burst_value().len() && (#[trigger] self.burst_value()[k]).0 == i
                    && self.burst_value()[k].1 == c && forall|j: int|
                    0 <= j < k ==> (#[trigger] self.burst_value()[j]).0 != i,
    {
        if self.life == 0 {
            return None;
        }
        let mut k: usize = 0;
        while k < self.burst.len()
            invariant
                self.life > 0,
                k <= self.burst@.len(),
                forall|j: int| 0 <= j < k ==> (#[trigger] self.burst@[j]).0 != i,
            decreases self.burst@.len() - k,
        {
            if self.burst[k].0 == i {
                assert(self.burst_value()[k as int].0 == i);
                return Some(self.burst[k].1);
            }
            k = k + 1;
        }
        None
    }
}

} // verus!
