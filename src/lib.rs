//! An immediate-mode 2D drawing canvas over a recorded GPU command stream.
use vstd::prelude::*;

pub mod gl;
pub mod canvas;
pub mod layout;
pub mod setup;
pub mod shaders;

verus! {

} // verus!
