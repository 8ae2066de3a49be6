//! The camera a scene is seen through.

use crate::single::Single;
use vstd::prelude::*;

verus! {

/// A camera: its vertical field of view in radians and the ratio of the
/// width of its image to the height.
#[derive(Clone, Copy, Debug, PartialEq, Eq, Structural)]
pub struct Camera {
    pub fov: Single,
    pub aspect_ratio: Single,
}

} // verus!
