//! How a rendered image is fitted onto the display.
use vstd::prelude::*;

verus! {

/// How an image of one size is shown on a display of another.
#[derive(Debug, Clone, Copy, PartialEq, Eq, Structural)]
pub enum ScalingMode {
    /// Stretched to cover the display.
    Stretch,
    /// Scaled evenly to fit, and centred.
    Centered,
}

} // verus!
