//! Helpers on page files.

pub mod directory;
pub mod element;
