//! **Noise** shapes, state and the static-field hash.
//!
//! Every cell hashes its `(x, y, t)` coordinates; a cell is lit when
//! `(hash % 100) / 100` falls below the intensity, drawn with one of four
//! shade glyphs picked by the hash, and one lit cell in eight is
//! accent-colored. `Snow` re-rolls every tick, `Static` freezes the field. The
//! intensity-carrying widget lives with the renderer.

use vstd::prelude::*;
use vstd::wrapping::u32_specs::{wrapping_add, wrapping_mul};

verus! {

/// Multiplier of the coordinate hash (Knuth's golden-ratio constant).
pub const HASH_A: u32 = 2654435761;

/// Noise animation form.
#[derive(Debug, Clone, Copy, PartialEq, Eq, Structural)]
pub enum NoiseShape {
    /// The field re-rolls every tick (the default).
    Snow,
    /// A frozen field.
    Static,
}

impl Default for NoiseShape {
    fn default() -> (s: NoiseShape)
        ensures
            s == NoiseShape::Snow,
    {
        NoiseShape::Snow
    }
}

/// Mutable state for a noise field: the animation clock.
#[derive(Debug, Clone, Copy)]
pub struct NoiseState {
    /// Animation clock, advanced once per frame.
    pub tick: u64,
}

impl Default for NoiseState {
    fn default() -> (s: NoiseState)
        ensures
            s.tick == 0,
    {
        NoiseState { tick: 0 }
    }
}

impl NoiseState {
    /// A state at tick 0.
    pub fn new() -> (s: NoiseState)
        ensures
            s.tick == 0,
    {
        NoiseState { tick: 0 }
    }

    /// Advance the clock one tick (wrapping).
    pub fn tick(&mut self)
        ensures
            final(self).tick == (if old(self).tick == u64::MAX {
                0
            } else {
                (old(self).tick + 1) as u64
            }),
    {
        self.tick = self.tick.wrapping_add(1);
    }
}

/// The coordinate hash: `((x·A + y)·A + t) xor 0x9E3779B9`, all in wrapping
/// 32-bit arithmetic.
pub open spec fn cell_hash(x: u32, y: u32, t: u32) -> u32 {
    wrapping_add(wrapping_mul(wrapping_add(wrapping_mul(x, HASH_A), y), HASH_A), t) ^ 0x9E37_79B9u32
}

/// Hash of a cell at time `t`.
pub fn noise_hash(x: u32, y: u32, t: u32) -> (h: u32)
    ensures
        h == cell_hash(x, y, t),
{
    let mut h = x.wrapping_mul(HASH_A).wrapping_add(y);
    h = h.wrapping_mul(HASH_A).wrapping_add(t);
    h ^ 0x9E37_79B9
}

/// The time input of the hash: the low 32 bits of the tick for `Snow`, 0 for
/// `Static`.
pub fn hash_time(shape: NoiseShape, state: &NoiseState) -> (t: u32)
    ensures
        shape == NoiseShape::Snow ==> t == state.tick as u32,
        shape == NoiseShape::Static ==> t == 0,
{
    match shape {
        NoiseShape::Snow => state.tick as u32,
        NoiseShape::Static => 0,
    }
}

/// The glyph a hash selects (`░ ▒ ▓ █` by `hash % 4`) and whether the fleck
/// is accent-colored (`hash % 8 == 0`).
pub fn noise_glyph(h: u32) -> (r: (char, bool))
    ensures
        r.0 == (if h % 4 == 0 {
            '░'
        } else if h % 4 == 1 {
            '▒'
        } else if h % 4 == 2 {
            '▓'
        } else {
            '█'
        }),
        r.1 == (h % 8 == 0),
{
    let g = if h % 4 == 0 {
        '░'
    } else if h % 4 == 1 {
        '▒'
    } else if h % 4 == 2 {
        '▓'
    } else {
        '█'
    };
    (g, h % 8 == 0)
}

} // verus!
