use vstd::prelude::*;

pub mod aligned_box3;
pub mod camera;
pub mod resources;
pub mod scalar;
pub mod type_conversions;
