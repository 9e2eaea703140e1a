//! Generators of site metadata files.

pub mod cname;
pub mod humans;
pub mod manifest;
pub mod news_sitemap;
pub mod tags;
