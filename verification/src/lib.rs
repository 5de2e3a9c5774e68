//! Verified state core of a terminal emulator.
//!
//! The crate turns a stream of decoded terminal-control tokens into a
//! renderable character grid, and turns that grid into positioned, colored
//! glyph draw instructions. The byte-level escape-sequence tokenizer, the
//! pseudo-terminal I/O, the windowing/GPU plumbing and the font rasterizer
//! are external collaborators; only their narrow call contracts appear here.

pub mod batch;
pub mod cell;
pub mod color;
pub mod cursor;
pub mod dispatch;
pub mod erase;
pub mod grid;
pub mod laws;
pub mod rendition;
pub mod term;

pub use color::Attribute;
pub use color::Color;
pub use color::RGBA;
