//! A digital clock for the terminal, drawn with block-glyph bitmaps and
//! repainted only where the displayed value changed.
pub mod brush;
pub mod font;
pub mod time;
pub mod view;
pub mod zone;
