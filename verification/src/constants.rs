//! Fixed dimensions of the rendering surface and of text glyphs.

use vstd::prelude::*;

verus! {

/// Width, in pixels, of the content area that the layout root is given.
pub const CONTENT_AREA_WIDTH: u64 = 600;

/// Width, in pixels, of one character of text.
pub const CHAR_WIDTH: u64 = 8;

/// Height, in pixels, of one line of text.
pub const CHAR_HEIGHT: u64 = 16;

} // verus!
