//! Generators for the small metadata files of a static site, with a
//! verified core that validates domain names and renders CNAME records.

use vstd::prelude::*;

pub mod compiler;
pub mod error;
pub mod generators;
pub mod metadata;
pub mod models;
pub mod modules;
pub mod utilities;
pub mod text;

pub use error::{ContentProcessingErrorBuilder, Error, ErrorSeverity, IoErrorBuilder};

verus! {

/// The version of this library.
pub const VERSION: &'static str = "0.0.4";

} // verus!
