//! What holds of every frame, whatever the device, the simulation and the
//! camera answer.
//!
//! A frame is played here against fixed surroundings: each step is answered
//! as the surroundings dictate, until the frame has finished. The laws say
//! which steps are taken, in which order, and what the component holds
//! afterwards.

use vstd::prelude::*;
use crate::error::RenderError;
use crate::error::ResourceKind;
use crate::frame::attribute_index;
use crate::frame::draw_count;
use crate::frame::position_layout;
use crate::frame::Matrix;
use crate::frame::Reply;
use crate::frame::Step;
use crate::geometry::flatten;
use crate::geometry::Position;
use crate::program::MATRIX_UNIFORM;
use crate::program::POSITION_ATTRIBUTE;
use crate::render::answers;
use crate::render::next_state;
use crate::render::next_step;
use crate::render::RenderState;

verus! {

/// Everything outside the library that a frame depends on.
pub struct Surroundings {
    /// Whether the device allocates the buffer object.
    pub buffer_created: bool,
    /// The simulation's particles, in its own order.
    pub particles: Vec<Position>,
    /// Whether the device allocates the vertex-array object.
    pub vertex_array_created: bool,
    /// The location that the device gives for the position attribute.
    pub attribute_location: i32,
    /// The camera's transform, or its account of why it has none.
    pub camera: Result<Matrix, String>,
}

/// A frame that was played to its end.
pub struct Played {
    /// What the component holds afterwards.
    pub state: RenderState,
    /// The steps taken, in order, the finishing step last.
    pub trace: Seq<Step>,
}

/// What the driver reports on `step` in the given surroundings.
pub open spec fn answer(around: Surroundings, step: Step) -> Reply {
    match step {
        Step::CreateBuffer => Reply::Created(around.buffer_created),
        Step::ReadParticles => Reply::Particles(around.particles),
        Step::CreateVertexArray => Reply::Created(around.vertex_array_created),
        Step::ResolveAttribute { .. } => Reply::Location(around.attribute_location),
        Step::QueryCamera => Reply::Camera(around.camera),
        _ => Reply::Done,
    }
}

/// The largest number of steps that can still follow `step` in one frame.
pub open spec fn steps_ahead(step: Step) -> nat {
    match step {
        Step::CreateBuffer => 15,
        Step::BindArrayBuffer => 14,
        Step::ReadParticles => 13,
        Step::UploadVertices => 12,
        Step::CreateVertexArray => 11,
        Step::BindVertexArray => 10,
        Step::DescribeAttribute { .. } => 9,
        Step::ResolveAttribute { .. } => 8,
        Step::EnableAttribute { .. } => 7,
        Step::RebindVertexArray => 6,
        Step::UseProgram => 5,
        Step::ResolveUniform { .. } => 4,
        Step::QueryCamera => 3,
        Step::UploadMatrix { .. } => 2,
        Step::DrawPoints { .. } => 1,
        Step::Finished(_) => 0,
    }
}

/// A report of the wrong kind for the pending step is ignored: the step
/// stays pending and the component is left as it was. So is any report on a
/// frame that has finished.
pub proof fn law_unfitting_reply_is_ignored(state: RenderState, step: Step, reply: Reply)
    requires
        !answers(step, reply),
    ensures
        next_step(state, step, reply) == step,
        next_state(state, step, reply) == state,
{
}

/// Every report of the fitting kind brings the frame nearer to its end, and
/// the surroundings always report in the fitting kind. A frame therefore
/// ends after fifteen steps at most.
pub proof fn law_fitting_reply_makes_progress(state: RenderState, step: Step, reply: Reply)
    requires
        answers(step, reply),
    ensures
        steps_ahead(next_step(state, step, reply)) < steps_ahead(step) <= 15,
        forall|around: Surroundings| !(step is Finished) ==> answers(step, answer(around, step)),
{
}

/// Only the particles read for a frame change what the component holds,
/// and they replace the vertex data and the count in full. The program
/// stays the same throughout.
pub proof fn law_only_particles_change_state(state: RenderState, step: Step, reply: Reply)
    ensures
        next_state(state, step, reply).program == state.program,
        !(step is ReadParticles && reply is Particles) ==> next_state(state, step, reply)
            == state,
        step is ReadParticles && reply is Particles ==> {
            &&& next_state(state, step, reply).count == reply->Particles_0@.len()
            &&& next_state(state, step, reply).vertices == flatten(reply->Particles_0@)
            &&& next_state(state, step, reply).consistent()
        },
{
}

/// Plays a frame from `step` on, in the given surroundings, for a component
/// in `state`.
pub open spec fn play(state: RenderState, step: Step, around: Surroundings) -> Played
    decreases steps_ahead(step),
{
    if step is Finished {
        Played { state, trace: seq![step] }
    } else {
        let reply = answer(around, step);
        let rest = play(next_state(state, step, reply), next_step(state, step, reply), around);
        Played { state: rest.state, trace: seq![step] + rest.trace }
    }
}

/// The steps of drawing with the vertex data as it is, for `count` vertices
/// and a camera that gives `matrix`.
pub open spec fn redraw_steps(count: nat, matrix: Matrix) -> Seq<Step> {
    seq![
        Step::UseProgram,
        Step::ResolveUniform { name: MATRIX_UNIFORM },
        Step::QueryCamera,
        Step::UploadMatrix { transpose: false, matrix },
        Step::DrawPoints { first: 0, count: draw_count(count) as i32 },
        Step::Finished(Ok(())),
    ]
}

/// The steps of a camera failure: the program is made current, the uniform
/// is looked up, the camera is asked, and the frame ends with the camera's
/// report. Nothing is uploaded and nothing is drawn.
pub open spec fn camera_failure_steps(report: String) -> Seq<Step> {
    seq![
        Step::UseProgram,
        Step::ResolveUniform { name: MATRIX_UNIFORM },
        Step::QueryCamera,
        Step::Finished(Err(RenderError::Camera(report))),
    ]
}

/// The steps of a full frame up to the point where the vertex data is on
/// the device.
pub open spec fn upload_steps() -> Seq<Step> {
    seq![
        Step::CreateBuffer,
        Step::BindArrayBuffer,
        Step::ReadParticles,
        Step::UploadVertices,
        Step::CreateVertexArray,
    ]
}

/// The steps of a full frame that describe the vertex layout, for a device
/// that gives `location` for the position attribute.
pub open spec fn layout_steps(location: i32) -> Seq<Step> {
    seq![
        Step::BindVertexArray,
        Step::DescribeAttribute { layout: position_layout() },
        Step::ResolveAttribute { name: POSITION_ATTRIBUTE },
        Step::EnableAttribute { index: attribute_index(location) as u32 },
        Step::RebindVertexArray,
    ]
}

/// A redraw with a working camera makes the program current, looks up the
/// transform uniform, uploads the camera's transform as it came, not
/// transposed, and draws as many points as the component counts. The
/// component is left as it was.
pub proof fn law_redraw_completes(state: RenderState, around: Surroundings)
    requires
        around.camera is Ok,
    ensures
        play(state, Step::UseProgram, around) == (Played {
            state,
            trace: redraw_steps(state.count, around.camera->Ok_0),
        }),
{
    reveal_with_fuel(play, 7);
    assert(play(state, Step::UseProgram, around).trace =~= redraw_steps(
        state.count,
        around.camera->Ok_0,
    ));
}

/// A redraw whose camera fails ends with the camera's report and the
/// component as it was. No transform is uploaded and no draw is issued.
pub proof fn law_redraw_camera_failure(state: RenderState, around: Surroundings)
    requires
        around.camera is Err,
    ensures
        play(state, Step::UseProgram, around) == (Played {
            state,
            trace: camera_failure_steps(around.camera->Err_0),
        }),
        forall|i: int|
            0 <= i < camera_failure_steps(around.camera->Err_0).len() ==> {
                let step = #[trigger] camera_failure_steps(around.camera->Err_0)[i];
                !(step is UploadMatrix) && !(step is DrawPoints)
            },
{
    reveal_with_fuel(play, 5);
    assert(play(state, Step::UseProgram, around).trace =~= camera_failure_steps(
        around.camera->Err_0,
    ));
}

/// A redraw before any draw, with a working camera, succeeds and draws no
/// point: its draw step asks for zero vertices.
pub proof fn law_redraw_before_draw(program: web_sys::WebGlProgram, around: Surroundings)
    requires
        around.camera is Ok,
    ensures
        play(RenderState::initial(program), Step::UseProgram, around).trace.last()
            == Step::Finished(Ok(())),
        play(RenderState::initial(program), Step::UseProgram, around).trace[4]
            == (Step::DrawPoints { first: 0, count: 0 }),
        play(RenderState::initial(program), Step::UseProgram, around).state
            == RenderState::initial(program),
{
    law_redraw_completes(RenderState::initial(program), around);
}

/// A full frame for which the device allocates no buffer ends there, with
/// the component untouched.
pub proof fn law_draw_without_buffer(state: RenderState, around: Surroundings)
    requires
        !around.buffer_created,
    ensures
        play(state, Step::CreateBuffer, around) == (Played {
            state,
            trace: seq![
                Step::CreateBuffer,
                Step::Finished(Err(RenderError::ResourceCreation(ResourceKind::Buffer))),
            ],
        }),
{
    reveal_with_fuel(play, 3);
    assert(play(state, Step::CreateBuffer, around).trace =~= seq![
        Step::CreateBuffer,
        Step::Finished(Err(RenderError::ResourceCreation(ResourceKind::Buffer))),
    ]);
}

/// A full frame for which the device allocates the buffer but no
/// vertex-array object ends there. The vertex data has been rebuilt and
/// uploaded by then, so the component holds the new particles.
pub proof fn law_draw_without_vertex_array(state: RenderState, around: Surroundings)
    requires
        around.buffer_created,
        !around.vertex_array_created,
    ensures
        play(state, Step::CreateBuffer, around) == (Played {
            state: state.rebuilt(around.particles@),
            trace: upload_steps().push(
                Step::Finished(Err(RenderError::ResourceCreation(ResourceKind::VertexArray))),
            ),
        }),
{
    reveal_with_fuel(play, 7);
    assert(play(state, Step::CreateBuffer, around).trace =~= upload_steps().push(
        Step::Finished(Err(RenderError::ResourceCreation(ResourceKind::VertexArray))),
    ));
}

/// A full frame in which the device allocates both objects goes through the
/// upload and the layout, and then does what a redraw does for the rebuilt
/// component.
pub proof fn law_draw_then_redraw(state: RenderState, around: Surroundings)
    requires
        around.buffer_created,
        around.vertex_array_created,
    ensures
        play(state, Step::CreateBuffer, around).state == state.rebuilt(around.particles@),
        play(state, Step::CreateBuffer, around).trace == upload_steps() + layout_steps(
            around.attribute_location,
        ) + play(state.rebuilt(around.particles@), Step::UseProgram, around).trace,
        play(state.rebuilt(around.particles@), Step::UseProgram, around).state == state.rebuilt(
            around.particles@,
        ),
{
    let rebuilt = state.rebuilt(around.particles@);
    lemma_redraw_keeps_state(rebuilt, around);
    reveal_with_fuel(play, 11);
    assert(play(state, Step::CreateBuffer, around).trace =~= upload_steps() + layout_steps(
        around.attribute_location,
    ) + play(rebuilt, Step::UseProgram, around).trace);
}

/// A redraw never changes what the component holds.
pub proof fn lemma_redraw_keeps_state(state: RenderState, around: Surroundings)
    ensures
        play(state, Step::UseProgram, around).state == state,
{
    if around.camera is Ok {
        law_redraw_completes(state, around);
    } else {
        law_redraw_camera_failure(state, around);
    }
}

/// A full frame in which nothing fails takes the upload, the layout and the
/// redraw steps in this order, and leaves the component with the particles'
/// flat layout and their number.
pub proof fn law_draw_completes(state: RenderState, around: Surroundings)
    requires
        around.buffer_created,
        around.vertex_array_created,
        around.camera is Ok,
    ensures
        play(state, Step::CreateBuffer, around) == (Played {
            state: state.rebuilt(around.particles@),
            trace: upload_steps() + layout_steps(around.attribute_location) + redraw_steps(
                around.particles@.len(),
                around.camera->Ok_0,
            ),
        }),
{
    law_draw_then_redraw(state, around);
    law_redraw_completes(state.rebuilt(around.particles@), around);
}

/// A full frame whose camera fails has rebuilt and uploaded the vertex data
/// and described the layout by then; it ends with the camera's report and
/// without a draw.
pub proof fn law_draw_camera_failure(state: RenderState, around: Surroundings)
    requires
        around.buffer_created,
        around.vertex_array_created,
        around.camera is Err,
    ensures
        play(state, Step::CreateBuffer, around) == (Played {
            state: state.rebuilt(around.particles@),
            trace: upload_steps() + layout_steps(around.attribute_location)
                + camera_failure_steps(around.camera->Err_0),
        }),
{
    law_draw_then_redraw(state, around);
    law_redraw_camera_failure(state.rebuilt(around.particles@), around);
}

/// After a full frame that succeeded, the component counts as many vertices
/// as the simulation had particles, and its vertex data is their flat
/// layout: three values per particle, in the simulation's order.
pub proof fn law_draw_mirrors_particles(state: RenderState, around: Surroundings)
    requires
        play(state, Step::CreateBuffer, around).trace.last() == Step::Finished(Ok(())),
    ensures
        play(state, Step::CreateBuffer, around).state.count == around.particles@.len(),
        play(state, Step::CreateBuffer, around).state.vertices == flatten(around.particles@),
        play(state, Step::CreateBuffer, around).state.vertices.len() == 3
            * around.particles@.len(),
        play(state, Step::CreateBuffer, around).state.program == state.program,
{
    if !around.buffer_created {
        law_draw_without_buffer(state, around);
    } else if !around.vertex_array_created {
        law_draw_without_vertex_array(state, around);
    } else if around.camera is Err {
        law_draw_camera_failure(state, around);
    } else {
        law_draw_completes(state, around);
    }
}

/// A full frame for a simulation without particles, in which nothing fails,
/// succeeds: its draw step asks for zero vertices and the component is left
/// with no vertex data.
pub proof fn law_draw_of_nothing(state: RenderState, around: Surroundings)
    requires
        around.buffer_created,
        around.vertex_array_created,
        around.camera is Ok,
        around.particles@.len() == 0,
    ensures
        play(state, Step::CreateBuffer, around).trace.last() == Step::Finished(Ok(())),
        play(state, Step::CreateBuffer, around).trace[14]
            == (Step::DrawPoints { first: 0, count: 0 }),
        play(state, Step::CreateBuffer, around).state.count == 0,
        play(state, Step::CreateBuffer, around).state.vertices.len() == 0,
{
    law_draw_completes(state, around);
}

/// Whatever the surroundings, a frame leaves the component consistent:
/// three values of vertex data per counted vertex.
pub proof fn law_frames_keep_consistency(state: RenderState, around: Surroundings)
    requires
        state.consistent(),
    ensures
        play(state, Step::CreateBuffer, around).state.consistent(),
        play(state, Step::UseProgram, around).state.consistent(),
{
    lemma_redraw_keeps_state(state, around);
    if !around.buffer_created {
        law_draw_without_buffer(state, around);
    } else if !around.vertex_array_created {
        law_draw_without_vertex_array(state, around);
    } else {
        law_draw_then_redraw(state, around);
    }
}

} // verus!
