use vstd::prelude::*;

verus! {

/// Which way the camera looks when the world transform is built: along its
/// own forward direction, or turned half a rotation about the vertical axis.
#[derive(Debug, Clone, Copy, PartialEq, Eq, Structural)]
pub enum Direction {
    Forward,
    Backward,
}

} // verus!
