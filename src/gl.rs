//! The graphics device as a recorder of GPU commands. The device keeps the
//! state that the commands establish (bound program, bound vertex array);
//! the host replays the recorded commands on the live rendering context.
use vstd::prelude::*;

use crate::layout::{
    elements_bytes, pack_elements, pack_vertices, vertices_bytes, UnsafeRectVertex, CORNER_OFFSET,
    POSITION_OFFSET, VERTEX_STRIDE,
};

verus! {

/// A 2-component vector in pixel space.
#[derive(Clone, Copy, Debug, PartialEq, Eq)]
pub struct Vec2 {
    pub x: i64,
    pub y: i64,
}

/// A 3-component vector.
#[derive(Clone, Copy, Debug, PartialEq, Eq)]
pub struct Vec3 {
    pub x: i64,
    pub y: i64,
    pub z: i64,
}

/// A 4-component vector; as a color, RGBA with channels from 0 to 255.
#[derive(Clone, Copy, Debug, PartialEq, Eq)]
pub struct Vec4 {
    pub x: i64,
    pub y: i64,
    pub z: i64,
    pub w: i64,
}

impl Vec2 {
    pub fn new(x: i64, y: i64) -> (r: Vec2)
        ensures
            r == (Vec2 { x, y }),
    {
        Vec2 { x, y }
    }
}

impl Vec4 {
    pub fn new(x: i64, y: i64, z: i64, w: i64) -> (r: Vec4)
        ensures
            r == (Vec4 { x, y, z, w }),
    {
        Vec4 { x, y, z, w }
    }
}

/// The name of a linked program on the device.
#[derive(Clone, Copy, Debug, PartialEq, Eq)]
pub struct ProgramHandle {
    pub id: u32,
}

/// The location of a uniform variable of a linked program.
#[derive(Clone, Copy, Debug, PartialEq, Eq)]
pub struct UniformLocation {
    pub id: u32,
}

/// A vertex array on the device together with the number of indices that
/// one draw of it consumes.
#[derive(Clone, Copy, Debug, PartialEq, Eq)]
pub struct VertexObject {
    pub array_object: u32,
    pub element_count: i32,
}

/// How the device reads one component of a vertex attribute.
#[derive(Clone, Copy, Debug, PartialEq, Eq)]
pub enum AttributeKind {
    Float,
    UnsignedByte,
}

/// One vertex attribute as it is declared on a vertex array.
#[derive(Clone, Copy, Debug, PartialEq, Eq)]
pub struct VertexAttribute {
    pub location: u32,
    pub components: i32,
    pub kind: AttributeKind,
    pub stride: i32,
    pub offset: i32,
}

/// Everything the device needs to create a vertex array: the packed buffers
/// and the two attributes that read them.
#[derive(Debug, PartialEq, Eq)]
pub struct GeometryUpload {
    pub vertex_bytes: Vec<u8>,
    pub element_bytes: Vec<u8>,
    pub position: VertexAttribute,
    pub corner: VertexAttribute,
    pub element_count: i32,
}

/// The position attribute: two floats at the start of each record.
pub open spec fn position_attribute() -> VertexAttribute {
    VertexAttribute {
        location: 0,
        components: 2,
        kind: AttributeKind::Float,
        stride: VERTEX_STRIDE as i32,
        offset: POSITION_OFFSET as i32,
    }
}

/// The corner attribute: one unsigned byte after the two floats.
pub open spec fn corner_attribute() -> VertexAttribute {
    VertexAttribute {
        location: 1,
        components: 1,
        kind: AttributeKind::UnsignedByte,
        stride: VERTEX_STRIDE as i32,
        offset: CORNER_OFFSET as i32,
    }
}

/// Plans the upload of a mesh: packs the vertex records and the indices and
/// declares the two attributes at the offsets of the record layout. The
/// indices are packed as given: that each names one of the vertices, and
/// that they come in threes, is the caller's duty.
pub fn plan_vertex_object(vertices: &[UnsafeRectVertex], elements: &[u32]) -> (r:
    GeometryUpload)
    requires
        elements@.len() <= i32::MAX,
    ensures
        r.vertex_bytes@ == vertices_bytes(vertices@),
        r.element_bytes@ == elements_bytes(elements@),
        r.position == position_attribute(),
        r.corner == corner_attribute(),
        r.element_count == elements@.len(),
{
    let position = VertexAttribute {
        location: 0,
        components: 2,
        kind: AttributeKind::Float,
        stride: VERTEX_STRIDE as i32,
        offset: POSITION_OFFSET as i32,
    };
    let corner = VertexAttribute {
        location: 1,
        components: 1,
        kind: AttributeKind::UnsignedByte,
        stride: VERTEX_STRIDE as i32,
        offset: CORNER_OFFSET as i32,
    };
    GeometryUpload {
        vertex_bytes: pack_vertices(vertices),
        element_bytes: pack_elements(elements),
        position,
        corner,
        element_count: elements.len() as i32,
    }
}

impl VertexObject {
    /// The vertex array that the device created from `upload`.
    pub fn new(array_object: u32, upload: &GeometryUpload) -> (r: VertexObject)
        ensures
            r.array_object == array_object,
            r.element_count == upload.element_count,
    {
        VertexObject { array_object, element_count: upload.element_count }
    }
}

/// A value for a uniform variable.
#[derive(Clone, Copy, Debug, PartialEq, Eq)]
pub enum UniformValue {
    Scalar(i64),
    Vec2(Vec2),
    Vec3(Vec3),
    Vec4(Vec4),
}

/// One command for the device.
#[derive(Clone, Copy, Debug, PartialEq, Eq)]
pub enum Command {
    /// Clear the color target to an RGBA value.
    Clear(Vec4),
    /// Make a program the current one.
    UseProgram(ProgramHandle),
    /// Set a uniform of the current program.
    SetUniform(UniformLocation, UniformValue),
    /// Bind a vertex array.
    BindVertexArray(u32),
    /// Draw that many indices of the bound vertex array as a triangle list.
    DrawTriangles(i32),
}

/// The graphics device: the commands recorded since the host last took them,
/// and the state that the commands so far have established.
pub struct GL {
    pub commands: Vec<Command>,
    pub program: Option<ProgramHandle>,
    pub vertex_array: Option<u32>,
}

impl GL {
    /// A device with nothing recorded and nothing bound.
    pub fn new() -> (r: GL)
        ensures
            r.commands@ == Seq::<Command>::empty(),
            r.program is None,
            r.vertex_array is None,
    {
        GL { commands: Vec::new(), program: None, vertex_array: None }
    }

    /// Clears the color target; binds nothing.
    pub fn clear(&mut self, color: Vec4)
        ensures
            final(self).commands@ == old(self).commands@.push(Command::Clear(color)),
            final(self).program == old(self).program,
            final(self).vertex_array == old(self).vertex_array,
    {
        self.commands.push(Command::Clear(color));
    }

    /// Makes `program` the current program.
    pub fn use_program(&mut self, program: ProgramHandle)
        ensures
            final(self).commands@ == old(self).commands@.push(Command::UseProgram(program)),
            final(self).program == Some(program),
            final(self).vertex_array == old(self).vertex_array,
    {
        self.commands.push(Command::UseProgram(program));
        self.program = Some(program);
    }

    /// Binds the vertex array of `vertex_object` and draws all its indices as
    /// triangles.
    pub fn draw_from_vertex_array_object(&mut self, vertex_object: VertexObject)
        ensures
            final(self).commands@ == old(self).commands@.push(
                Command::BindVertexArray(vertex_object.array_object),
            ).push(Command::DrawTriangles(vertex_object.element_count)),
            final(self).program == old(self).program,
            final(self).vertex_array == Some(vertex_object.array_object),
    {
        self.commands.push(Command::BindVertexArray(vertex_object.array_object));
        self.commands.push(Command::DrawTriangles(vertex_object.element_count));
        self.vertex_array = Some(vertex_object.array_object);
    }

    /// Hands over the recorded commands, oldest first; the bound state stays.
    pub fn take_commands(&mut self) -> (r: Vec<Command>)
        ensures
            r@ == old(self).commands@,
            final(self).commands@ == Seq::<Command>::empty(),
            final(self).program == old(self).program,
            final(self).vertex_array == old(self).vertex_array,
    {
        let mut taken: Vec<Command> = Vec::new();
        std::mem::swap(&mut taken, &mut self.commands);
        taken
    }
}

/// A uniform variable of a program; `location` is `None` where the shader
/// compiler removed the variable as unused.
#[derive(Clone, Copy, Debug, PartialEq, Eq)]
pub struct Uniform {
    pub location: Option<UniformLocation>,
}

/// The commands that setting `uniform` to `value` records.
pub open spec fn set_uniform_commands(uniform: Uniform, value: UniformValue) -> Seq<Command> {
    match uniform.location {
        Some(l) => seq![Command::SetUniform(l, value)],
        None => Seq::empty(),
    }
}

impl Uniform {
    /// A uniform at the location that the device resolved for its name.
    pub fn new(location: Option<UniformLocation>) -> (r: Uniform)
        ensures
            r.location == location,
    {
        Uniform { location }
    }

    /// Sets the uniform of the current program; where the variable was
    /// removed this does nothing.
    pub fn set(&self, gl: &mut GL, value: UniformValue)
        ensures
            final(gl).commands@ == old(gl).commands@ + set_uniform_commands(*self, value),
            final(gl).program == old(gl).program,
            final(gl).vertex_array == old(gl).vertex_array,
    {
        match self.location {
            Some(l) => {
                gl.commands.push(Command::SetUniform(l, value));
            },
            None => {},
        }
        proof {
            assert(gl.commands@ =~= old(gl).commands@ + set_uniform_commands(*self, value));
        }
    }
}

/// Setting a uniform that the compiler removed leaves the device exactly as
/// it was: no command, no change of bound state.
pub proof fn lemma_unresolved_uniform_is_no_op(gl: GL, uniform: Uniform, value: UniformValue)
    requires
        uniform.location is None,
    ensures
        gl.commands@ + set_uniform_commands(uniform, value) == gl.commands@,
{
    assert(gl.commands@ + set_uniform_commands(uniform, value) =~= gl.commands@);
}

} // verus!
