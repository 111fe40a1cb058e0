//! Setting up the rectangle primitive on a device, as a sequence of decisions:
//! the host performs each requested action on the rendering context and
//! reports its outcome back as an event.
use vstd::prelude::*;

use crate::canvas::{RectFill, QUAD_ELEMENT_COUNT};
use crate::gl::{
    corner_attribute, plan_vertex_object, position_attribute, GeometryUpload, ProgramHandle,
    Uniform, UniformLocation, VertexObject,
};
use crate::layout::{
    elements_bytes, le_bytes, lemma_vertex_record_at, lemma_vertices_bytes_len,
    unit_quad_elements, unit_quad_elements_spec, unit_quad_spec, unit_quad_vertices,
    vertices_bytes,
};
use crate::shaders::ShaderImpl;

verus! {

/// A stage of a shader program.
#[derive(Clone, Copy, Debug, PartialEq, Eq)]
pub enum ShaderStage {
    Vertex,
    Fragment,
}

/// How far the setup has come.
#[derive(Clone, Copy, Debug, PartialEq, Eq)]
pub enum SetupState {
    /// The vertex stage of the program is being compiled.
    CompilingVertex(ProgramHandle),
    /// The fragment stage of the program is being compiled.
    CompilingFragment(ProgramHandle),
    /// The program is being linked.
    Linking(ProgramHandle),
    /// The unit quad is being uploaded.
    CreatingGeometry(ProgramHandle),
    /// The program's uniforms are being looked up by name.
    ResolvingUniforms(ProgramHandle, VertexObject),
    /// The primitive is ready to draw.
    Ready(RectFill),
    /// The setup was aborted.
    Failed,
}

/// What the host reports after performing an action.
#[derive(Debug, PartialEq, Eq)]
pub enum SetupEvent {
    /// A stage was compiled; `log` is the compiler's diagnostic text.
    Compiled { ok: bool, log: String },
    /// The program was linked; `log` is the linker's diagnostic text.
    Linked { ok: bool, log: String },
    /// The vertex array with this name was created from the requested upload.
    GeometryCreated(u32),
    /// The four uniforms were looked up, in the order of the names
    /// `ScreenSize`, `RectTopLeft`, `RectBottomRight`, `RectColor`.
    UniformsResolved {
        screen_size: Option<UniformLocation>,
        rect_top_left: Option<UniformLocation>,
        rect_bottom_right: Option<UniformLocation>,
        rect_color: Option<UniformLocation>,
    },
}

/// What the host is asked to do next.
#[derive(Debug, PartialEq, Eq)]
pub enum SetupAction {
    /// Create a stage, compile it from this source and attach it to the program.
    Compile(ShaderStage, String),
    /// Link the program, then delete its stage objects.
    Link,
    /// Create a vertex array from this upload.
    CreateGeometry(GeometryUpload),
    /// Look up the four uniforms of the program by name.
    ResolveUniforms(ProgramHandle),
    /// The primitive is ready.
    Finished(RectFill),
    /// Stop the process, with this diagnostic text.
    Abort(String),
}

/// The state after `e` arrives in state `s`. An event that does not answer
/// the pending action, and any failure, ends the setup.
pub open spec fn next_state(s: SetupState, e: SetupEvent) -> SetupState {
    match (s, e) {
        (SetupState::CompilingVertex(p), SetupEvent::Compiled { ok, .. }) => {
            if ok {
                SetupState::CompilingFragment(p)
            } else {
                SetupState::Failed
            }
        },
        (SetupState::CompilingFragment(p), SetupEvent::Compiled { ok, .. }) => {
            if ok {
                SetupState::Linking(p)
            } else {
                SetupState::Failed
            }
        },
        (SetupState::Linking(p), SetupEvent::Linked { ok, .. }) => {
            if ok {
                SetupState::CreatingGeometry(p)
            } else {
                SetupState::Failed
            }
        },
        (SetupState::CreatingGeometry(p), SetupEvent::GeometryCreated(a)) => {
            SetupState::ResolvingUniforms(
                p,
                VertexObject { array_object: a, element_count: QUAD_ELEMENT_COUNT },
            )
        },
        (
            SetupState::ResolvingUniforms(p, vo),
            SetupEvent::UniformsResolved {
                screen_size,
                rect_top_left,
                rect_bottom_right,
                rect_color,
            },
        ) => SetupState::Ready(
            RectFill {
                program: p,
                vertex_object: vo,
                screen_size: Uniform { location: screen_size },
                rect_top_left: Uniform { location: rect_top_left },
                rect_bottom_right: Uniform { location: rect_bottom_right },
                rect_color: Uniform { location: rect_color },
            },
        ),
        _ => SetupState::Failed,
    }
}

/// Whether `e` reports a failed compile or link.
pub open spec fn is_failure(e: SetupEvent) -> bool {
    match e {
        SetupEvent::Compiled { ok, .. } => !ok,
        SetupEvent::Linked { ok, .. } => !ok,
        _ => false,
    }
}

/// The diagnostic text that `e` carries, if any.
pub open spec fn log_of(e: SetupEvent) -> Seq<char> {
    match e {
        SetupEvent::Compiled { log, .. } => log@,
        SetupEvent::Linked { log, .. } => log@,
        _ => Seq::empty(),
    }
}

/// Whether `u` uploads the unit quad with the record layout's attributes.
pub open spec fn is_quad_upload(u: GeometryUpload) -> bool {
    &&& u.vertex_bytes@ == vertices_bytes(unit_quad_spec())
    &&& u.element_bytes@ == elements_bytes(unit_quad_elements_spec())
    &&& u.position == position_attribute()
    &&& u.corner == corner_attribute()
    &&& u.element_count == QUAD_ELEMENT_COUNT
}

/// Whether `a` is the action that leads into state `next`, after `e`
/// arrived in `s`; a failed compile or link aborts with its log verbatim.
pub open spec fn is_action_for(
    a: SetupAction,
    s: SetupState,
    e: SetupEvent,
    shader: ShaderImpl,
) -> bool {
    match next_state(s, e) {
        SetupState::CompilingFragment(_) => a matches SetupAction::Compile(
            ShaderStage::Fragment,
            src,
        ) && src@ == shader.fragment@,
        SetupState::Linking(_) => a is Link,
        SetupState::CreatingGeometry(_) => a matches SetupAction::CreateGeometry(u)
            && is_quad_upload(u),
        SetupState::ResolvingUniforms(p, _) => a == SetupAction::ResolveUniforms(p),
        SetupState::Ready(rf) => a == SetupAction::Finished(rf),
        _ => a matches SetupAction::Abort(m) && (is_failure(e) ==> m@ == log_of(e)),
    }
}

/// Plans the upload of the unit quad.
fn quad_upload() -> (r: GeometryUpload)
    ensures
        is_quad_upload(r),
{
    let vertices = unit_quad_vertices();
    let elements = unit_quad_elements();
    plan_vertex_object(vertices.as_slice(), elements.as_slice())
}

impl SetupState {
    /// Starts the setup for `program`, an empty program that the device just
    /// created: its vertex stage comes first.
    pub fn start(program: ProgramHandle, shader: &ShaderImpl) -> (r: (SetupState, SetupAction))
        ensures
            r.0 == SetupState::CompilingVertex(program),
            r.1 matches SetupAction::Compile(ShaderStage::Vertex, src) && src@ == shader.vertex@,
    {
        (SetupState::CompilingVertex(program), SetupAction::Compile(ShaderStage::Vertex, shader.vertex.clone()))
    }

    /// Takes the outcome `event` of the pending action and decides the next
    /// state and action.
    pub fn step(self, shader: &ShaderImpl, event: SetupEvent) -> (r: (SetupState, SetupAction))
        ensures
            r.0 == next_state(self, event),
            is_action_for(r.1, self, event, *shader),
    {
        let ghost e = event;
        match (self, event) {
            (SetupState::CompilingVertex(p), SetupEvent::Compiled { ok, log }) => {
                if ok {
                    (
                        SetupState::CompilingFragment(p),
                        SetupAction::Compile(ShaderStage::Fragment, shader.fragment.clone()),
                    )
                } else {
                    (SetupState::Failed, SetupAction::Abort(log))
                }
            },
            (SetupState::CompilingFragment(p), SetupEvent::Compiled { ok, log }) => {
                if ok {
                    (SetupState::Linking(p), SetupAction::Link)
                } else {
                    (SetupState::Failed, SetupAction::Abort(log))
                }
            },
            (SetupState::Linking(p), SetupEvent::Linked { ok, log }) => {
                if ok {
                    (SetupState::CreatingGeometry(p), SetupAction::CreateGeometry(quad_upload()))
                } else {
                    (SetupState::Failed, SetupAction::Abort(log))
                }
            },
            (SetupState::CreatingGeometry(p), SetupEvent::GeometryCreated(a)) => {
                let vo = VertexObject { array_object: a, element_count: QUAD_ELEMENT_COUNT };
                (SetupState::ResolvingUniforms(p, vo), SetupAction::ResolveUniforms(p))
            },
            (
                SetupState::ResolvingUniforms(p, vo),
                SetupEvent::UniformsResolved {
                    screen_size,
                    rect_top_left,
                    rect_bottom_right,
                    rect_color,
                },
            ) => {
                let rf = RectFill {
                    program: p,
                    vertex_object: vo,
                    screen_size: Uniform::new(screen_size),
                    rect_top_left: Uniform::new(rect_top_left),
                    rect_bottom_right: Uniform::new(rect_bottom_right),
                    rect_color: Uniform::new(rect_color),
                };
                (SetupState::Ready(rf), SetupAction::Finished(rf))
            },
            (_, SetupEvent::Compiled { ok, log }) => {
                (SetupState::Failed, SetupAction::Abort(log))
            },
            (_, SetupEvent::Linked { ok, log }) => {
                (SetupState::Failed, SetupAction::Abort(log))
            },
            _ => (SetupState::Failed, SetupAction::Abort("setup event out of order".to_owned())),
        }
    }
}

/// The state after the events `es` arrive, in order, in state `s`.
pub open spec fn run(s: SetupState, es: Seq<SetupEvent>) -> SetupState
    decreases es.len(),
{
    if es.len() == 0 {
        s
    } else {
        next_state(run(s, es.drop_last()), es.last())
    }
}

/// Once failed, the setup stays failed whatever arrives.
pub proof fn lemma_failed_stays_failed(es: Seq<SetupEvent>)
    ensures
        run(SetupState::Failed, es) == SetupState::Failed,
    decreases es.len(),
{
    if es.len() > 0 {
        lemma_failed_stays_failed(es.drop_last());
    }
}

/// A program whose stage fails to compile, or which fails to link, ends the
/// setup there: the action is an abort that carries the diagnostic text
/// verbatim, and whatever events follow, the setup never asks for the
/// geometry, so no vertex array is ever created for it.
pub proof fn lemma_failed_program_creates_no_geometry(
    s: SetupState,
    e: SetupEvent,
    a: SetupAction,
    shader: ShaderImpl,
    es: Seq<SetupEvent>,
)
    requires
        s is CompilingVertex || s is CompilingFragment || s is Linking,
        is_failure(e),
        is_action_for(a, s, e, shader),
    ensures
        next_state(s, e) == SetupState::Failed,
        a matches SetupAction::Abort(m) && m@ == log_of(e),
        forall|i: int|
            0 <= i < es.len() ==> !(next_state(run(next_state(s, e), es.take(i)), es[i]) is CreatingGeometry),
{
    assert forall|i: int| 0 <= i < es.len() implies !(next_state(
        run(next_state(s, e), es.take(i)),
        es[i],
    ) is CreatingGeometry) by {
        lemma_failed_stays_failed(es.take(i));
    }
}

/// The upload of the unit quad agrees with its attribute declarations: the
/// buffer holds four records of the declared stride; in record `k` the eight
/// bytes at the position offset are its two floats, and the byte at the
/// corner offset is its corner index `k`.
pub proof fn lemma_quad_upload_matches_attributes(u: GeometryUpload, k: int)
    requires
        is_quad_upload(u),
        0 <= k < 4,
    ensures
        u.vertex_bytes@.len() == 4 * u.position.stride,
        u.corner.stride == u.position.stride,
        u.vertex_bytes@.subrange(
            k * u.position.stride + u.position.offset,
            k * u.position.stride + u.position.offset + 8,
        ) == le_bytes(unit_quad_spec()[k].gl_x) + le_bytes(unit_quad_spec()[k].gl_y),
        u.vertex_bytes@[k * u.corner.stride + u.corner.offset] == k,
{
    let vs = unit_quad_spec();
    lemma_vertices_bytes_len(vs);
    lemma_vertex_record_at(vs, k);
    let b = vertices_bytes(vs);
    let rec = b.subrange(k * 9, k * 9 + 9);
    assert(b.subrange(k * 9, k * 9 + 8) =~= rec.subrange(0, 8));
    assert(rec.subrange(0, 8) =~= le_bytes(vs[k].gl_x) + le_bytes(vs[k].gl_y));
    assert(vs[k].index == k) by {
        assert(vs[0].index == 0);
        assert(vs[1].index == 1);
        assert(vs[2].index == 2);
        assert(vs[3].index == 3);
    }
}

} // verus!
