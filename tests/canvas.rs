use kino::canvas::{Canvas, FilledRect, RectFill, RectFillArgs, Renderable, SurfaceSize};
use kino::gl::{
    Command, ProgramHandle, Uniform, UniformLocation, UniformValue, Vec2, Vec4, VertexObject, GL,
};

const SCREEN: UniformLocation = UniformLocation { id: 10 };
const TOP_LEFT: UniformLocation = UniformLocation { id: 11 };
const BOTTOM_RIGHT: UniformLocation = UniformLocation { id: 12 };
const COLOR: UniformLocation = UniformLocation { id: 13 };

fn rect_fill() -> RectFill {
    RectFill {
        program: ProgramHandle { id: 3 },
        vertex_object: VertexObject { array_object: 7, element_count: 6 },
        screen_size: Uniform::new(Some(SCREEN)),
        rect_top_left: Uniform::new(Some(TOP_LEFT)),
        rect_bottom_right: Uniform::new(Some(BOTTOM_RIGHT)),
        rect_color: Uniform::new(Some(COLOR)),
    }
}

fn surface(width: u32, height: u32) -> SurfaceSize {
    SurfaceSize { width, height }
}

fn fill_commands(surface: SurfaceSize, pos: Vec2, bottom_right: Vec2, color: Vec4) -> Vec<Command> {
    vec![
        Command::UseProgram(ProgramHandle { id: 3 }),
        Command::SetUniform(
            SCREEN,
            UniformValue::Vec2(Vec2::new(surface.width as i64, surface.height as i64)),
        ),
        Command::SetUniform(TOP_LEFT, UniformValue::Vec2(pos)),
        Command::SetUniform(BOTTOM_RIGHT, UniformValue::Vec2(bottom_right)),
        Command::SetUniform(COLOR, UniformValue::Vec4(color)),
        Command::BindVertexArray(7),
        Command::DrawTriangles(6),
    ]
}

#[test]
fn rect_fill_issues_one_program_bind_four_uniforms_one_draw() {
    let mut canvas = Canvas::new(GL::new(), rect_fill());
    let white = Vec4::new(255, 255, 255, 255);
    canvas.rect_fill(surface(1280, 720), Vec2::new(50, 50), Vec2::new(50, 40), white);
    let commands = canvas.gl.take_commands();
    assert_eq!(
        commands,
        fill_commands(surface(1280, 720), Vec2::new(50, 50), Vec2::new(100, 90), white)
    );
    assert_eq!(canvas.gl.program, Some(ProgramHandle { id: 3 }));
    assert_eq!(canvas.gl.vertex_array, Some(7));
    assert!(canvas.gl.commands.is_empty());
}

#[test]
fn rect_outline_issues_four_strips() {
    let mut canvas = Canvas::new(GL::new(), rect_fill());
    let white = Vec4::new(255, 255, 255, 255);
    let s = surface(800, 600);
    canvas.rect_outline(s, Vec2::new(0, 0), Vec2::new(100, 100), 5, white);
    let mut expected = Vec::new();
    // left: pos (0,0), size (5,100)
    expected.extend(fill_commands(s, Vec2::new(0, 0), Vec2::new(5, 100), white));
    // top: pos (0,0), size (100,5)
    expected.extend(fill_commands(s, Vec2::new(0, 0), Vec2::new(100, 5), white));
    // right: pos (95,0), size (5,100)
    expected.extend(fill_commands(s, Vec2::new(95, 0), Vec2::new(100, 100), white));
    // bottom: pos (0,95), size (100,5)
    expected.extend(fill_commands(s, Vec2::new(0, 95), Vec2::new(100, 100), white));
    assert_eq!(canvas.gl.commands, expected);
}

#[test]
fn rect_outline_thick_border_overlaps_without_validation() {
    let mut canvas = Canvas::new(GL::new(), rect_fill());
    let c = Vec4::new(1, 2, 3, 4);
    let s = surface(10, 10);
    canvas.rect_outline(s, Vec2::new(10, 20), Vec2::new(8, 6), 5, c);
    let mut expected = Vec::new();
    expected.extend(fill_commands(s, Vec2::new(10, 20), Vec2::new(15, 26), c));
    expected.extend(fill_commands(s, Vec2::new(10, 20), Vec2::new(18, 25), c));
    expected.extend(fill_commands(s, Vec2::new(13, 20), Vec2::new(18, 26), c));
    expected.extend(fill_commands(s, Vec2::new(10, 21), Vec2::new(18, 26), c));
    assert_eq!(canvas.gl.commands, expected);
}

#[test]
fn screen_size_follows_resize_between_frames() {
    let mut canvas = Canvas::new(GL::new(), rect_fill());
    let c = Vec4::new(0, 0, 0, 255);
    assert_eq!(canvas.screen_size(surface(1280, 720)), Vec2::new(1280, 720));
    canvas.rect_fill(surface(1280, 720), Vec2::new(1, 2), Vec2::new(3, 4), c);
    let first = canvas.gl.take_commands();
    assert_eq!(canvas.screen_size(surface(640, 480)), Vec2::new(640, 480));
    canvas.rect_fill(surface(640, 480), Vec2::new(1, 2), Vec2::new(3, 4), c);
    let second = canvas.gl.take_commands();
    assert_eq!(first[1], Command::SetUniform(SCREEN, UniformValue::Vec2(Vec2::new(1280, 720))));
    assert_eq!(second[1], Command::SetUniform(SCREEN, UniformValue::Vec2(Vec2::new(640, 480))));
    assert_eq!(canvas.rect_fill, rect_fill());
}

#[test]
fn removed_uniforms_are_skipped() {
    let mut rf = rect_fill();
    rf.screen_size = Uniform::new(None);
    rf.rect_color = Uniform::new(None);
    let mut gl = GL::new();
    let args = RectFillArgs {
        rect_pos: Vec2::new(-5, 5),
        rect_size: Vec2::new(10, 10),
        rect_color: Vec4::new(9, 9, 9, 9),
    };
    rf.draw(&mut gl, surface(100, 100), &args);
    assert_eq!(
        gl.commands,
        vec![
            Command::UseProgram(ProgramHandle { id: 3 }),
            Command::SetUniform(TOP_LEFT, UniformValue::Vec2(Vec2::new(-5, 5))),
            Command::SetUniform(BOTTOM_RIGHT, UniformValue::Vec2(Vec2::new(5, 15))),
            Command::BindVertexArray(7),
            Command::DrawTriangles(6),
        ]
    );
}

#[test]
fn setting_removed_uniform_changes_nothing() {
    let mut gl = GL::new();
    gl.use_program(ProgramHandle { id: 1 });
    let before = gl.commands.clone();
    Uniform::new(None).set(&mut gl, UniformValue::Scalar(4));
    Uniform::new(None).set(&mut gl, UniformValue::Vec4(Vec4::new(1, 2, 3, 4)));
    assert_eq!(gl.commands, before);
    assert_eq!(gl.program, Some(ProgramHandle { id: 1 }));
    assert_eq!(gl.vertex_array, None);
}

#[test]
fn setting_present_uniform_records_it() {
    let mut gl = GL::new();
    Uniform::new(Some(COLOR)).set(&mut gl, UniformValue::Scalar(-2));
    assert_eq!(gl.commands, vec![Command::SetUniform(COLOR, UniformValue::Scalar(-2))]);
}

#[test]
fn clear_is_transparent_black() {
    let mut canvas = Canvas::new(GL::new(), rect_fill());
    canvas.clear();
    assert_eq!(canvas.gl.commands, vec![Command::Clear(Vec4::new(0, 0, 0, 0))]);
    assert_eq!(canvas.gl.program, None);
}

#[test]
fn take_commands_keeps_bound_state() {
    let mut gl = GL::new();
    gl.use_program(ProgramHandle { id: 2 });
    gl.draw_from_vertex_array_object(VertexObject { array_object: 4, element_count: 6 });
    let taken = gl.take_commands();
    assert_eq!(
        taken,
        vec![
            Command::UseProgram(ProgramHandle { id: 2 }),
            Command::BindVertexArray(4),
            Command::DrawTriangles(6),
        ]
    );
    assert!(gl.commands.is_empty());
    assert_eq!(gl.program, Some(ProgramHandle { id: 2 }));
    assert_eq!(gl.vertex_array, Some(4));
}

struct Frame {
    pos: Vec2,
    size: Vec2,
}

impl Renderable for Frame {
    fn render(&self, canvas: &mut Canvas, surface: SurfaceSize) {
        canvas.rect_fill(surface, self.pos, self.size, Vec4::new(0, 0, 255, 255));
        canvas.rect_outline(surface, self.pos, self.size, 1, Vec4::new(255, 0, 0, 255));
    }
}

#[test]
fn draw_dispatches_to_renderable() {
    let mut canvas = Canvas::new(GL::new(), rect_fill());
    let frame = Frame { pos: Vec2::new(2, 2), size: Vec2::new(4, 4) };
    canvas.draw(&frame, surface(50, 50));
    assert_eq!(canvas.gl.commands.len(), 5 * 7);
    assert_eq!(canvas.gl.commands[6], Command::DrawTriangles(6));
}

#[test]
fn filled_rect_shape_draws_one_fill() {
    let mut canvas = Canvas::new(GL::new(), rect_fill());
    let c = Vec4::new(10, 20, 30, 40);
    let shape = FilledRect { pos: Vec2::new(3, 4), size: Vec2::new(5, 6), color: c };
    canvas.draw(&shape, surface(320, 200));
    assert_eq!(
        canvas.gl.commands,
        fill_commands(surface(320, 200), Vec2::new(3, 4), Vec2::new(8, 10), c)
    );
}

#[test]
fn filled_rect_shape_out_of_range_draws_nothing() {
    let mut canvas = Canvas::new(GL::new(), rect_fill());
    let shape = FilledRect {
        pos: Vec2::new(i64::MAX, 0),
        size: Vec2::new(1, 1),
        color: Vec4::new(0, 0, 0, 0),
    };
    canvas.draw(&shape, surface(320, 200));
    assert!(canvas.gl.commands.is_empty());
}
