//! Turning page files into site content.

pub mod service;
