//! The size of the displays that the store renders for.

use vstd::prelude::*;

verus! {

/// The geometry of the displays, fixed when the service starts: every image
/// is rendered at exactly this size.
#[derive(Debug, Clone, Copy, PartialEq, Eq, Structural)]
pub struct Config {
    /// Height of a display, in pixels.
    pub epd_height: u32,
    /// Width of a display, in pixels.
    pub epd_width: u32,
}

} // verus!
