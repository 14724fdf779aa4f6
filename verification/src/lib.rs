//! A text-mode console for a memory-mapped character display.
//!
//! The display is a fixed grid of cells, each a glyph byte and a packed
//! colour attribute. A writer turns a stream of bytes into writes to the
//! grid's bottom row, wrapping and scrolling as needed, and a console
//! shares one writer behind a spin lock.

pub mod color;
pub mod buffer;
pub mod screen;
pub mod writer;
pub mod console;
