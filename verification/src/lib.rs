//! Sci-fi terminal widgets: themes, palettes, widget configuration, widget
//! state machines and the layout computations behind every glyph the widgets
//! draw.
//!
//! Everything here is plain data and verified logic; drawing the computed
//! glyphs into a terminal buffer is left to the caller.

pub mod audio;
pub mod css;
pub mod geom;
pub mod keys;
pub mod stylesheet;
pub mod text;
pub mod theme;
pub mod widgets;
