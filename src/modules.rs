//! Generators of the plain-text site files.

pub mod json;
