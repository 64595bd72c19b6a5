//! Block-art text rendering with fixed-width bitmap glyph tables.
//!
//! - `font`: glyphs, fonts, and resolving a character to its glyph.
//! - `store`: the built-in fonts and lookup by name.
//! - `wrap`: splitting text into words and greedy wrapping by rendered width.
//! - `compose`: turning one logical line into rows of glyph bitmaps.
//! - `renderer`: the rendering entry points and how blocks are laid out.

pub mod font;
pub mod store;
pub mod wrap;
pub mod compose;
pub mod renderer;
