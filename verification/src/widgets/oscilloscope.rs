//! **Oscilloscope** waveform shapes and state.
//!
//! The waveform sampling is done by the renderer; this module holds the
//! waveform choice and the scroll clock.

use vstd::prelude::*;

verus! {

/// Waveform of an oscilloscope.
#[derive(Debug, Clone, Copy, PartialEq, Eq, Structural)]
pub enum OscilloscopeShape {
    /// A sine wave (the default).
    Sine,
    /// A square wave.
    Square,
    /// A sawtooth.
    Saw,
    /// A folded-sine triangle.
    Triangle,
}

impl Default for OscilloscopeShape {
    fn default() -> (s: OscilloscopeShape)
        ensures
            s == OscilloscopeShape::Sine,
    {
        OscilloscopeShape::Sine
    }
}

/// Mutable state for an oscilloscope: the scroll clock.
#[derive(Debug, Clone, Copy)]
pub struct OscilloscopeState {
    /// Animation clock, advanced once per frame.
    pub tick: u64,
}

impl Default for OscilloscopeState {
    fn default() -> (s: OscilloscopeState)
        ensures
            s.tick == 0,
    {
        OscilloscopeState { tick: 0 }
    }
}

impl OscilloscopeState {
    /// A state at tick 0.
    pub fn new() -> (s: OscilloscopeState)
        ensures
            s.tick == 0,
    {
        OscilloscopeState { tick: 0 }
    }

    /// Advance the clock one tick (wrapping).
    pub fn tick(&mut self)
        ensures
            final(self).tick == (if old(self).tick == u64::MAX {
                0
            } else {
                (old(self).tick + 1) as u64
            }),
    {
        self.tick = self.tick.wrapping_add(1);
    }
}

} // verus!
