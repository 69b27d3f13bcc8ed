//! The render component: the program it draws with, the vertex data of the
//! last frame, and the step function that plans each frame.

use vstd::prelude::*;
use web_sys::WebGlProgram;
use crate::error::RenderError;
use crate::error::ResourceKind;
use crate::frame::attribute_index;
use crate::frame::attribute_index_of;
use crate::frame::draw_count;
use crate::frame::draw_count_of;
use crate::frame::position_layout;
use crate::frame::AttributeLayout;
use crate::frame::Reply;
use crate::frame::Step;
use crate::geometry::flatten;
use crate::geometry::flatten_positions;
use crate::geometry::Position;
use crate::program::MATRIX_UNIFORM;
use crate::program::POSITION_ATTRIBUTE;

verus! {

/// Draws a simulation's particles as a cloud of points.
pub struct ProgramVortonRender {
    program: WebGlProgram,
    vertices: Vec<u32>,
    n_vertices: usize,
}

/// What a render component holds, as mathematics.
pub struct RenderState {
    /// The linked program that the component draws with.
    pub program: WebGlProgram,
    /// The vertex data built for the last frame.
    pub vertices: Seq<u32>,
    /// The number of vertices that a draw call covers.
    pub count: nat,
}

impl RenderState {
    /// The state of a component that has not drawn yet.
    pub open spec fn initial(program: WebGlProgram) -> RenderState {
        RenderState { program, vertices: Seq::empty(), count: 0 }
    }

    /// The state after the vertex data was rebuilt from `positions`.
    pub open spec fn rebuilt(self, positions: Seq<Position>) -> RenderState {
        RenderState {
            program: self.program,
            vertices: flatten(positions),
            count: positions.len(),
        }
    }

    /// Every vertex takes three values of the vertex data.
    pub open spec fn consistent(self) -> bool {
        self.vertices.len() == 3 * self.count
    }
}

/// Whether `reply` is of the kind that the driver reports on `step`.
pub open spec fn answers(step: Step, reply: Reply) -> bool {
    match step {
        Step::CreateBuffer | Step::CreateVertexArray => reply is Created,
        Step::ReadParticles => reply is Particles,
        Step::ResolveAttribute { .. } => reply is Location,
        Step::QueryCamera => reply is Camera,
        Step::Finished(_) => false,
        _ => reply is Done,
    }
}

/// The step that follows `step` once the driver has reported `reply`, for a
/// component in `state`. A reply of the wrong kind for the step leaves the
/// step pending.
pub open spec fn next_step(state: RenderState, step: Step, reply: Reply) -> Step {
    match (step, reply) {
        (Step::CreateBuffer, Reply::Created(true)) => Step::BindArrayBuffer,
        (Step::CreateBuffer, Reply::Created(false)) => {
            Step::Finished(Err(RenderError::ResourceCreation(ResourceKind::Buffer)))
        },
        (Step::BindArrayBuffer, Reply::Done) => Step::ReadParticles,
        (Step::ReadParticles, Reply::Particles(_)) => Step::UploadVertices,
        (Step::UploadVertices, Reply::Done) => Step::CreateVertexArray,
        (Step::CreateVertexArray, Reply::Created(true)) => Step::BindVertexArray,
        (Step::CreateVertexArray, Reply::Created(false)) => {
            Step::Finished(Err(RenderError::ResourceCreation(ResourceKind::VertexArray)))
        },
        (Step::BindVertexArray, Reply::Done) => {
            Step::DescribeAttribute { layout: position_layout() }
        },
        (Step::DescribeAttribute { .. }, Reply::Done) => {
            Step::ResolveAttribute { name: POSITION_ATTRIBUTE }
        },
        (Step::ResolveAttribute { .. }, Reply::Location(location)) => {
            Step::EnableAttribute { index: attribute_index(location) as u32 }
        },
        (Step::EnableAttribute { .. }, Reply::Done) => Step::RebindVertexArray,
        (Step::RebindVertexArray, Reply::Done) => Step::UseProgram,
        (Step::UseProgram, Reply::Done) => Step::ResolveUniform { name: MATRIX_UNIFORM },
        (Step::ResolveUniform { .. }, Reply::Done) => Step::QueryCamera,
        (Step::QueryCamera, Reply::Camera(Ok(matrix))) => {
            Step::UploadMatrix { transpose: false, matrix }
        },
        (Step::QueryCamera, Reply::Camera(Err(report))) => {
            Step::Finished(Err(RenderError::Camera(report)))
        },
        (Step::UploadMatrix { .. }, Reply::Done) => {
            Step::DrawPoints { first: 0, count: draw_count(state.count) as i32 }
        },
        (Step::DrawPoints { .. }, Reply::Done) => Step::Finished(Ok(())),
        _ => step,
    }
}

/// The state that a component in `state` has once the driver has reported
/// `reply` to `step`. Only the particles read for a frame change it.
pub open spec fn next_state(state: RenderState, step: Step, reply: Reply) -> RenderState {
    match (step, reply) {
        (Step::ReadParticles, Reply::Particles(positions)) => state.rebuilt(positions@),
        _ => state,
    }
}

/// Overwrites the vertex data and the vertex count in full, both at once.
fn overwrite(vertices: &mut Vec<u32>, count: &mut usize, new_vertices: Vec<u32>, new_count: usize)
    ensures
        *final(vertices) == new_vertices,
        *final(count) == new_count,
    no_unwind
{
    *vertices = new_vertices;
    *count = new_count;
}

impl View for ProgramVortonRender {
    type V = RenderState;

    closed spec fn view(&self) -> RenderState {
        RenderState {
            program: self.program,
            vertices: self.vertices@,
            count: self.n_vertices as nat,
        }
    }
}

impl ProgramVortonRender {
    #[verifier::type_invariant]
    spec fn well_formed(self) -> bool {
        self.vertices@.len() == 3 * self.n_vertices
    }

    /// A component that draws with `program` and has not drawn yet: its
    /// vertex data is empty and it counts no vertices.
    pub fn new(program: WebGlProgram) -> (component: ProgramVortonRender)
        ensures
            component@ == RenderState::initial(program),
    {
        ProgramVortonRender { program, vertices: Vec::new(), n_vertices: 0 }
    }

    /// The program that the component draws with.
    pub fn program(&self) -> (program: &WebGlProgram)
        ensures
            *program == self@.program,
    {
        &self.program
    }

    /// The vertex data built for the last frame: three values per vertex.
    pub fn vertices(&self) -> (vertices: &Vec<u32>)
        ensures
            vertices@ == self@.vertices,
            self@.consistent(),
    {
        proof {
            use_type_invariant(self);
        }
        &self.vertices
    }

    /// The number of vertices that a draw call covers.
    pub fn vertex_count(&self) -> (count: usize)
        ensures
            count == self@.count,
            self@.consistent(),
    {
        proof {
            use_type_invariant(self);
        }
        self.n_vertices
    }

    /// The first step of a full frame: the vertex data is rebuilt from the
    /// simulation, uploaded and drawn.
    pub fn draw(&self) -> (step: Step)
        ensures
            step == Step::CreateBuffer,
    {
        Step::CreateBuffer
    }

    /// The first step of drawing again with the vertex data as it is, for a
    /// frame in which only the camera has changed.
    pub fn redraw(&self) -> (step: Step)
        ensures
            step == Step::UseProgram,
    {
        Step::UseProgram
    }

    /// Takes the driver's report on `step`, brings the component up to date
    /// and says what to do next.
    pub fn advance(&mut self, step: Step, reply: Reply) -> (next: Step)
        ensures
            next == next_step(old(self)@, step, reply),
            final(self)@ == next_state(old(self)@, step, reply),
            final(self)@.consistent(),
    {
        proof {
            use_type_invariant(&*self);
        }
        match (step, reply) {
            (Step::CreateBuffer, Reply::Created(true)) => Step::BindArrayBuffer,
            (Step::CreateBuffer, Reply::Created(false)) => {
                Step::Finished(Err(RenderError::ResourceCreation(ResourceKind::Buffer)))
            },
            (Step::BindArrayBuffer, Reply::Done) => Step::ReadParticles,
            (Step::ReadParticles, Reply::Particles(positions)) => {
                let vertices = flatten_positions(&positions);
                let count: usize = positions.len();
                overwrite(&mut self.vertices, &mut self.n_vertices, vertices, count);
                Step::UploadVertices
            },
            (Step::UploadVertices, Reply::Done) => Step::CreateVertexArray,
            (Step::CreateVertexArray, Reply::Created(true)) => Step::BindVertexArray,
            (Step::CreateVertexArray, Reply::Created(false)) => {
                Step::Finished(Err(RenderError::ResourceCreation(ResourceKind::VertexArray)))
            },
            (Step::BindVertexArray, Reply::Done) => {
                Step::DescribeAttribute {
                    layout: AttributeLayout {
                        index: 0,
                        components: 3,
                        normalized: false,
                        stride: 0,
                        offset: 0,
                    },
                }
            },
            (Step::DescribeAttribute { .. }, Reply::Done) => {
                Step::ResolveAttribute { name: POSITION_ATTRIBUTE }
            },
            (Step::ResolveAttribute { .. }, Reply::Location(location)) => {
                Step::EnableAttribute { index: attribute_index_of(location) }
            },
            (Step::EnableAttribute { .. }, Reply::Done) => Step::RebindVertexArray,
            (Step::RebindVertexArray, Reply::Done) => Step::UseProgram,
            (Step::UseProgram, Reply::Done) => Step::ResolveUniform { name: MATRIX_UNIFORM },
            (Step::ResolveUniform { .. }, Reply::Done) => Step::QueryCamera,
            (Step::QueryCamera, Reply::Camera(Ok(matrix))) => {
                Step::UploadMatrix { transpose: false, matrix }
            },
            (Step::QueryCamera, Reply::Camera(Err(report))) => {
                Step::Finished(Err(RenderError::Camera(report)))
            },
            (Step::UploadMatrix { .. }, Reply::Done) => {
                Step::DrawPoints { first: 0, count: draw_count_of(self.n_vertices) }
            },
            (Step::DrawPoints { .. }, Reply::Done) => Step::Finished(Ok(())),
            (step, _) => step,
        }
    }
}

} // verus!
