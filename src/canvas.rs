//! The rectangle primitive and the canvas facade over the device.
use vstd::prelude::*;

use crate::gl::{
    set_uniform_commands, Command, ProgramHandle, Uniform, UniformValue, Vec2, Vec4, VertexObject,
    GL,
};

verus! {

/// Name of the uniform that holds the drawable surface's size in pixels.
pub const SCREEN_SIZE_UNIFORM: &'static str = "ScreenSize";

/// Name of the uniform that holds the rectangle's top-left corner.
pub const RECT_TOP_LEFT_UNIFORM: &'static str = "RectTopLeft";

/// Name of the uniform that holds the rectangle's bottom-right corner.
pub const RECT_BOTTOM_RIGHT_UNIFORM: &'static str = "RectBottomRight";

/// Name of the uniform that holds the rectangle's color.
pub const RECT_COLOR_UNIFORM: &'static str = "RectColor";

/// Number of indices of the unit quad: two triangles.
pub const QUAD_ELEMENT_COUNT: i32 = 6;

/// The size of the drawable surface in pixels, as the host reports it now.
#[derive(Clone, Copy, Debug, PartialEq, Eq)]
pub struct SurfaceSize {
    pub width: u32,
    pub height: u32,
}

/// The surface size as a pixel-space vector.
pub open spec fn surface_vec(s: SurfaceSize) -> Vec2 {
    Vec2 { x: s.width as i64, y: s.height as i64 }
}

/// One request to fill a rectangle: top-left corner, size and color.
#[derive(Clone, Copy, Debug, PartialEq, Eq)]
pub struct RectFillArgs {
    pub rect_pos: Vec2,
    pub rect_size: Vec2,
    pub rect_color: Vec4,
}

/// Whether the bottom-right corner of `args` can be represented.
pub open spec fn fits(args: RectFillArgs) -> bool {
    i64::MIN <= args.rect_pos.x + args.rect_size.x <= i64::MAX && i64::MIN <= args.rect_pos.y
        + args.rect_size.y <= i64::MAX
}

/// The bottom-right corner of the rectangle of `args`.
pub open spec fn bottom_right(args: RectFillArgs) -> Vec2 {
    Vec2 {
        x: (args.rect_pos.x + args.rect_size.x) as i64,
        y: (args.rect_pos.y + args.rect_size.y) as i64,
    }
}

/// The primitive that fills rectangles: one program, the unit quad, and the
/// four uniforms of the program.
#[derive(Clone, Copy, Debug, PartialEq, Eq)]
pub struct RectFill {
    pub program: ProgramHandle,
    pub vertex_object: VertexObject,
    pub screen_size: Uniform,
    pub rect_top_left: Uniform,
    pub rect_bottom_right: Uniform,
    pub rect_color: Uniform,
}

/// The commands that one rectangle fill records: bind the program, set the
/// four uniforms, then bind the quad and draw it.
pub open spec fn rect_fill_commands(rf: RectFill, surface: SurfaceSize, args: RectFillArgs) -> Seq<
    Command,
> {
    seq![Command::UseProgram(rf.program)] + set_uniform_commands(
        rf.screen_size,
        UniformValue::Vec2(surface_vec(surface)),
    ) + set_uniform_commands(rf.rect_top_left, UniformValue::Vec2(args.rect_pos))
        + set_uniform_commands(rf.rect_bottom_right, UniformValue::Vec2(bottom_right(args)))
        + set_uniform_commands(rf.rect_color, UniformValue::Vec4(args.rect_color)) + seq![
        Command::BindVertexArray(rf.vertex_object.array_object),
        Command::DrawTriangles(rf.vertex_object.element_count),
    ]
}

impl RectFill {
    /// The primitive draws the unit quad: six indices per draw.
    pub open spec fn wf(self) -> bool {
        self.vertex_object.element_count == QUAD_ELEMENT_COUNT
    }

    /// Fills one rectangle: binds the program, sets the surface size (as the
    /// host reports it for this call), the two corners and the color, then
    /// draws the unit quad.
    pub fn draw(&self, gl: &mut GL, surface: SurfaceSize, args: &RectFillArgs)
        requires
            fits(*args),
        ensures
            final(gl).commands@ == old(gl).commands@ + rect_fill_commands(*self, surface, *args),
            final(gl).program == Some(self.program),
            final(gl).vertex_array == Some(self.vertex_object.array_object),
    {
        let ghost start = gl.commands@;
        gl.use_program(self.program);
        self.screen_size.set(
            gl,
            UniformValue::Vec2(Vec2::new(surface.width as i64, surface.height as i64)),
        );
        self.rect_top_left.set(gl, UniformValue::Vec2(args.rect_pos));
        let bottom_right = Vec2::new(
            args.rect_pos.x + args.rect_size.x,
            args.rect_pos.y + args.rect_size.y,
        );
        self.rect_bottom_right.set(gl, UniformValue::Vec2(bottom_right));
        self.rect_color.set(gl, UniformValue::Vec4(args.rect_color));
        gl.draw_from_vertex_array_object(self.vertex_object);
        proof {
            assert(gl.commands@ =~= start + rect_fill_commands(*self, surface, *args));
        }
    }
}

/// The four strips of an outline: left, top, right, bottom.
pub open spec fn outline_strips(pos: Vec2, size: Vec2, thickness: i64, color: Vec4) -> Seq<
    RectFillArgs,
> {
    seq![
        RectFillArgs { rect_pos: pos, rect_size: Vec2 { x: thickness, y: size.y }, rect_color: color },
        RectFillArgs { rect_pos: pos, rect_size: Vec2 { x: size.x, y: thickness }, rect_color: color },
        RectFillArgs {
            rect_pos: Vec2 { x: (pos.x + size.x - thickness) as i64, y: pos.y },
            rect_size: Vec2 { x: thickness, y: size.y },
            rect_color: color,
        },
        RectFillArgs {
            rect_pos: Vec2 { x: pos.x, y: (pos.y + size.y - thickness) as i64 },
            rect_size: Vec2 { x: size.x, y: thickness },
            rect_color: color,
        },
    ]
}

/// Whether every corner of every strip of an outline can be represented.
pub open spec fn outline_fits(pos: Vec2, size: Vec2, thickness: i64) -> bool {
    &&& i64::MIN <= pos.x + size.x <= i64::MAX
    &&& i64::MIN <= pos.y + size.y <= i64::MAX
    &&& i64::MIN <= pos.x + thickness <= i64::MAX
    &&& i64::MIN <= pos.y + thickness <= i64::MAX
    &&& i64::MIN <= pos.x + size.x - thickness <= i64::MAX
    &&& i64::MIN <= pos.y + size.y - thickness <= i64::MAX
}

/// Something that knows how to render itself onto a canvas.
pub trait Renderable {
    /// Whether rendering this shape onto `before`, with the surface size
    /// `surface`, may leave the canvas as `after`. A shape states here what
    /// its `render` draws; one that keeps this default promises nothing.
    open spec fn renders(&self, before: Canvas, surface: SurfaceSize, after: Canvas) -> bool {
        true
    }

    fn render(&self, canvas: &mut Canvas, surface: SurfaceSize)
        ensures
            self.renders(*old(canvas), surface, *final(canvas)),
    ;
}

/// A simple immediate-mode canvas: each call records the device commands
/// that draw it.
pub struct Canvas {
    pub gl: GL,
    pub rect_fill: RectFill,
}

impl Canvas {
    pub fn new(gl: GL, rect_fill: RectFill) -> (r: Canvas)
        ensures
            r.gl == gl,
            r.rect_fill == rect_fill,
    {
        Canvas { gl, rect_fill }
    }

    /// Clears the screen to transparent black.
    pub fn clear(&mut self)
        ensures
            final(self).gl.commands@ == old(self).gl.commands@.push(
                Command::Clear(Vec4 { x: 0, y: 0, z: 0, w: 0 }),
            ),
            final(self).gl.program == old(self).gl.program,
            final(self).gl.vertex_array == old(self).gl.vertex_array,
            final(self).rect_fill == old(self).rect_fill,
    {
        self.gl.clear(Vec4::new(0, 0, 0, 0));
    }

    /// The drawable surface's size in pixels, as the host reports it now.
    pub fn screen_size(&self, surface: SurfaceSize) -> (r: Vec2)
        ensures
            r == surface_vec(surface),
    {
        Vec2::new(surface.width as i64, surface.height as i64)
    }

    /// Lets `r` render itself onto this canvas.
    pub fn draw<R: Renderable>(&mut self, r: &R, surface: SurfaceSize)
        ensures
            r.renders(*old(self), surface, *final(self)),
    {
        r.render(self, surface);
    }

    /// Fills the rectangle at `pos` of size `size` with `color`.
    pub fn rect_fill(&mut self, surface: SurfaceSize, pos: Vec2, size: Vec2, color: Vec4)
        requires
            fits(RectFillArgs { rect_pos: pos, rect_size: size, rect_color: color }),
        ensures
            final(self).gl.commands@ == old(self).gl.commands@ + rect_fill_commands(
                old(self).rect_fill,
                surface,
                RectFillArgs { rect_pos: pos, rect_size: size, rect_color: color },
            ),
            final(self).gl.program == Some(old(self).rect_fill.program),
            final(self).gl.vertex_array == Some(old(self).rect_fill.vertex_object.array_object),
            final(self).rect_fill == old(self).rect_fill,
    {
        let args = RectFillArgs { rect_pos: pos, rect_size: size, rect_color: color };
        self.rect_fill.draw(&mut self.gl, surface, &args);
    }

    /// Draws a hollow border of width `thickness` inside the rectangle at
    /// `pos` of size `size`, as four filled strips: left, top, right, bottom.
    /// Strips overlap where `thickness` exceeds half of a side.
    pub fn rect_outline(
        &mut self,
        surface: SurfaceSize,
        pos: Vec2,
        size: Vec2,
        thickness: i64,
        color: Vec4,
    )
        requires
            outline_fits(pos, size, thickness),
        ensures
            final(self).gl.commands@ == old(self).gl.commands@ + rect_fill_commands(
                old(self).rect_fill,
                surface,
                outline_strips(pos, size, thickness, color)[0],
            ) + rect_fill_commands(
                old(self).rect_fill,
                surface,
                outline_strips(pos, size, thickness, color)[1],
            ) + rect_fill_commands(
                old(self).rect_fill,
                surface,
                outline_strips(pos, size, thickness, color)[2],
            ) + rect_fill_commands(
                old(self).rect_fill,
                surface,
                outline_strips(pos, size, thickness, color)[3],
            ),
            final(self).gl.program == Some(old(self).rect_fill.program),
            final(self).gl.vertex_array == Some(old(self).rect_fill.vertex_object.array_object),
            final(self).rect_fill == old(self).rect_fill,
    {
        let ghost strips = outline_strips(pos, size, thickness, color);
        // left
        self.rect_fill(surface, pos, Vec2::new(thickness, size.y), color);
        // top
        self.rect_fill(surface, pos, Vec2::new(size.x, thickness), color);
        // right
        self.rect_fill(
            surface,
            Vec2::new(pos.x + size.x - thickness, pos.y),
            Vec2::new(thickness, size.y),
            color,
        );
        // bottom
        self.rect_fill(
            surface,
            Vec2::new(pos.x, pos.y + size.y - thickness),
            Vec2::new(size.x, thickness),
            color,
        );
        proof {
            assert(strips[0] == RectFillArgs { rect_pos: pos, rect_size: Vec2 { x: thickness, y: size.y }, rect_color: color });
        }
    }
}

/// With all four uniforms present, filling a rectangle records exactly one
/// program bind, the four uniform sets (surface size, top-left, bottom-right,
/// color), one vertex-array bind and one draw of the quad's six indices.
pub proof fn lemma_rect_fill_issues_one_draw(rf: RectFill, surface: SurfaceSize, args: RectFillArgs)
    requires
        rf.wf(),
        rf.screen_size.location is Some,
        rf.rect_top_left.location is Some,
        rf.rect_bottom_right.location is Some,
        rf.rect_color.location is Some,
    ensures
        rect_fill_commands(rf, surface, args) == seq![
            Command::UseProgram(rf.program),
            Command::SetUniform(
                rf.screen_size.location.unwrap(),
                UniformValue::Vec2(surface_vec(surface)),
            ),
            Command::SetUniform(
                rf.rect_top_left.location.unwrap(),
                UniformValue::Vec2(args.rect_pos),
            ),
            Command::SetUniform(
                rf.rect_bottom_right.location.unwrap(),
                UniformValue::Vec2(bottom_right(args)),
            ),
            Command::SetUniform(rf.rect_color.location.unwrap(), UniformValue::Vec4(args.rect_color)),
            Command::BindVertexArray(rf.vertex_object.array_object),
            Command::DrawTriangles(6),
        ],
{
    assert(rect_fill_commands(rf, surface, args) =~= seq![
        Command::UseProgram(rf.program),
        Command::SetUniform(
            rf.screen_size.location.unwrap(),
            UniformValue::Vec2(surface_vec(surface)),
        ),
        Command::SetUniform(rf.rect_top_left.location.unwrap(), UniformValue::Vec2(args.rect_pos)),
        Command::SetUniform(
            rf.rect_bottom_right.location.unwrap(),
            UniformValue::Vec2(bottom_right(args)),
        ),
        Command::SetUniform(rf.rect_color.location.unwrap(), UniformValue::Vec4(args.rect_color)),
        Command::BindVertexArray(rf.vertex_object.array_object),
        Command::DrawTriangles(6),
    ]);
}

/// Each fill sets the surface size that the host reported for that very
/// call: of two consecutive fills with one primitive, set up once, the first
/// sets the size before a resize and the second the size after it.
pub proof fn lemma_screen_size_follows_surface(
    rf: RectFill,
    before: SurfaceSize,
    first: RectFillArgs,
    after: SurfaceSize,
    second: RectFillArgs,
)
    requires
        rf.screen_size.location is Some,
    ensures
        ({
            let cs = rect_fill_commands(rf, before, first) + rect_fill_commands(rf, after, second);
            let n = rect_fill_commands(rf, before, first).len() as int;
            &&& cs[1] == Command::SetUniform(
                rf.screen_size.location.unwrap(),
                UniformValue::Vec2(surface_vec(before)),
            )
            &&& cs[n + 1] == Command::SetUniform(
                rf.screen_size.location.unwrap(),
                UniformValue::Vec2(surface_vec(after)),
            )
        }),
{
    let c1 = rect_fill_commands(rf, before, first);
    let c2 = rect_fill_commands(rf, after, second);
    assert(c1[1] == Command::SetUniform(
        rf.screen_size.location.unwrap(),
        UniformValue::Vec2(surface_vec(before)),
    ));
    assert(c2[1] == Command::SetUniform(
        rf.screen_size.location.unwrap(),
        UniformValue::Vec2(surface_vec(after)),
    ));
    assert((c1 + c2)[c1.len() + 1 as int] == c2[1]);
}

/// A filled rectangle as a shape of its own.
#[derive(Clone, Copy, Debug, PartialEq, Eq)]
pub struct FilledRect {
    pub pos: Vec2,
    pub size: Vec2,
    pub color: Vec4,
}

impl FilledRect {
    /// The fill request that this shape makes.
    pub open spec fn args(self) -> RectFillArgs {
        RectFillArgs { rect_pos: self.pos, rect_size: self.size, rect_color: self.color }
    }
}

impl Renderable for FilledRect {
    /// One fill of the rectangle; a rectangle whose bottom-right corner
    /// cannot be represented draws nothing.
    open spec fn renders(&self, before: Canvas, surface: SurfaceSize, after: Canvas) -> bool {
        &&& after.rect_fill == before.rect_fill
        &&& if fits(self.args()) {
            after.gl.commands@ == before.gl.commands@ + rect_fill_commands(
                before.rect_fill,
                surface,
                self.args(),
            )
        } else {
            after.gl.commands@ == before.gl.commands@
        }
    }

    fn render(&self, canvas: &mut Canvas, surface: SurfaceSize) {
        let fits_x = self.pos.x.checked_add(self.size.x).is_some();
        let fits_y = self.pos.y.checked_add(self.size.y).is_some();
        if fits_x && fits_y {
            canvas.rect_fill(surface, self.pos, self.size, self.color);
        }
    }
}

} // verus!
