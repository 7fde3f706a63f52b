//! **CandlestickChart**: OHLC candles.
//!
//! The candle series lives in the app-side state; this module holds the
//! widget configuration.

use vstd::prelude::*;

use crate::theme::Theme;

verus! {

/// Visual form of each candle.
#[derive(Debug, Clone, Copy, PartialEq, Eq, Structural)]
pub enum CandlestickShape {
    /// Solid bodies (the default).
    Filled,
    /// Outlined bodies.
    Hollow,
    /// OHLC bars with open/close ticks.
    Bar,
}

impl Default for CandlestickShape {
    fn default() -> (s: CandlestickShape)
        ensures
            s == CandlestickShape::Filled,
    {
        CandlestickShape::Filled
    }
}

/// An OHLC candlestick chart (32 candles kept by default).
#[derive(Debug, Clone)]
pub struct CandlestickChart {
    /// Maximum number of candles kept (at least 2).
    pub capacity: usize,
    /// Visual form.
    pub shape: CandlestickShape,
    /// Theme whose palette drives colors.
    pub theme: Theme,
    /// Optional short caption drawn with the widget.
    pub label: Option<String>,
}

impl Default for CandlestickChart {
    fn default() -> (w: CandlestickChart)
        ensures
            w.capacity == 32,
            w.shape == CandlestickShape::Filled,
            w.theme == Theme::Cyberpunk,
            w.label is None,
    {
        CandlestickChart { capacity: 32, shape: CandlestickShape::Filled, theme: Theme::Cyberpunk, label: None, }
    }
}

impl CandlestickChart {
    /// A widget with the default configuration.
    pub fn new() -> (w: CandlestickChart)
        ensures
            w.capacity == 32,
            w.shape == CandlestickShape::Filled,
            w.theme == Theme::Cyberpunk,
            w.label is None,
    {
        CandlestickChart::default()
    }

    /// Set `capacity` (clamped to at least 2).
    pub fn capacity(self, n: usize) -> (w: CandlestickChart)
        ensures
            w == (CandlestickChart { capacity: if n >= 2 { n } else { 2 }, ..self }),
    {
        CandlestickChart {
            capacity: if n >= 2 {
                n
            } else {
                2
            },
            ..self
        }
    }

    /// Set the visual form.
    pub fn shape(self, shape: CandlestickShape) -> (w: CandlestickChart)
        ensures
            w == (CandlestickChart { shape, ..self }),
    {
        CandlestickChart { shape, ..self }
    }

    /// Set the theme.
    pub fn theme(self, theme: Theme) -> (w: CandlestickChart)
        ensures
            w == (CandlestickChart { theme, ..self }),
    {
        CandlestickChart { theme, ..self }
    }

    /// Attach a short caption.
    pub fn label(self, label: &str) -> (w: CandlestickChart)
        ensures
            w.label matches Some(l) && l@ == label@,
            w.capacity == self.capacity,
            w.shape == self.shape,
            w.theme == self.theme,
    {
        CandlestickChart { label: Some(String::from_str(label)), ..self }
    }
}

} // verus!
