//! Splits a terminal screen into a content window and a one-row status bar,
//! and orders every write to the one output stream that the windows share.

pub mod escape;
pub mod geometry;
pub mod layout;
pub mod sink;
pub mod window;
