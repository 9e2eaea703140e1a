//! Data read from pages and handed to the generators.

pub mod data;
