//! Digit glyphs for a 4 x 3 grid of addressable RGB LEDs: the glyph table,
//! the mapping from grid cells to strip positions, the frame renderer and
//! the state machine that cycles through the digits.

pub mod color;
pub mod frame;
pub mod glyph;
pub mod sequencer;
