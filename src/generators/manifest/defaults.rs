//! The values a web app manifest takes when none is given.

use vstd::prelude::*;

verus! {

/// The start URL.
pub const START_URL: &'static str = ".";

/// The display mode.
pub const DISPLAY: &'static str = "standalone";

/// The background colour, also used for a colour that cannot be read.
pub const BACKGROUND: &'static str = "#ffffff";

/// The orientation.
pub const ORIENTATION: &'static str = "portrait-primary";

/// The scope.
pub const SCOPE: &'static str = "/";

/// The size of an icon read from page metadata.
pub const ICON_SIZE: &'static str = "512x512";

/// The MIME type of a new icon.
pub const ICON_TYPE: &'static str = "image/svg+xml";

/// The purpose of a new icon.
pub const ICON_PURPOSE: &'static str = "any maskable";

} // verus!
