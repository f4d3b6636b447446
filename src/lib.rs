//! A single-line progress bar for terminals, drawn while an iterator is walked.
//!
//! The library decides what is written: how wide the bar is, how many of its
//! steps are filled, the percentage shown, and the exact text that overwrites
//! the previous frame. Writing that text to the terminal is left to the caller.
pub mod length;
pub mod progress;
pub mod render;

pub use length::Length;
pub use progress::{write_line_text, Prgrs};
