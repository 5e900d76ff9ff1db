//! The decisions behind a frameless desktop window: which edge a pointer
//! grabs for resizing, how the client-drawn frame adapts to tiling, what the
//! titlebar does on a press, and which page the window shows.
//!
//! Everything here works on plain values; the toolkit glue that draws the
//! window and feeds it events lives in the application around the library.

pub mod geometry;
pub mod resize;
pub mod frame;
pub mod titlebar;
pub mod pages;
