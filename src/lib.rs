//! Decomposes arbitrary bytes into text, grapheme clusters and classified
//! codepoints, and renders each codepoint in a terminal-safe diagnostic form.

pub mod codepoint;
pub mod decode;
pub mod render;
mod strings;
pub mod text;
pub mod unicode;

pub use codepoint::{Codepoint, display_with};
pub use text::{Grapheme, Text};
pub use unicode::{CharName, ControlCode, Diacritic, Direction, UnicodeCharacter};
