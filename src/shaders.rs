//! The shader catalog: the source text of each program the canvas uses.
use vstd::prelude::*;

verus! {

/// The source text of the two stages of one program.
#[derive(Debug)]
pub struct ShaderImpl {
    pub vertex: String,
    pub fragment: String,
}

impl ShaderImpl {
    pub fn new(vertex: String, fragment: String) -> (r: ShaderImpl)
        ensures
            r.vertex@ == vertex@,
            r.fragment@ == fragment@,
    {
        ShaderImpl { vertex, fragment }
    }
}

/// Every program of the canvas, by name; the host fills it in at startup.
#[derive(Debug)]
pub struct Shaders {
    pub rect_fill: ShaderImpl,
}

} // verus!
