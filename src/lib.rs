//! Renaming of files whose names hold whitespace, over a directory tree.
//!
//! The library decides; its caller performs the file system work that a
//! [`walker::Walker`] asks for and reports the lines that it hands out.
pub mod names;
pub mod plan;
pub mod walker;
pub mod laws;
