//! Building the shader program: two fixed shader stages, compiled and linked.

use vstd::prelude::*;
use web_sys::WebGlProgram;
use web_sys::WebGlShader;
use crate::error::RenderError;

verus! {

/// Source of the vertex stage: applies the transform to the homogeneous
/// position and sets a fixed point size.
pub const VERTEX_SHADER_SOURCE: &'static str = r##"
     attribute vec4 vPosition;
     uniform mat4 uMatrix;
     void main()
     {
        gl_Position = uMatrix*vPosition;
        gl_PointSize = 2.5;
     }
            "##;

/// Source of the fragment stage: every point is light gray and opaque.
pub const FRAGMENT_SHADER_SOURCE: &'static str = r##"
     precision mediump float;
     void main()
     {
       gl_FragColor = vec4(0.9, 0.9, 0.9, 1);
     }
            "##;

/// Name of the vertex stage's position attribute.
pub const POSITION_ATTRIBUTE: &'static str = "vPosition";

/// Name of the vertex stage's transform uniform.
pub const MATRIX_UNIFORM: &'static str = "uMatrix";

/// What the driver has to do next while the program is built.
pub enum BuildStep {
    /// Compile `source` as a vertex shader.
    CompileVertex { source: &'static str },
    /// Compile `source` as a fragment shader.
    CompileFragment { source: &'static str, vertex: WebGlShader },
    /// Link the two compiled stages into one program.
    Link { vertex: WebGlShader, fragment: WebGlShader },
    /// Nothing more: the program, or why there is none.
    Finished(Result<WebGlProgram, RenderError>),
}

/// What the driver reports after performing a build step.
pub enum BuildReply {
    /// The outcome of a compile step: the shader, or the compiler's report.
    Compiled(Result<WebGlShader, String>),
    /// The outcome of the link step: the program, or the linker's report.
    Linked(Result<WebGlProgram, String>),
}

/// The step that follows `step` once the driver has reported `reply`.
/// A reply of the wrong kind for the step leaves the step pending.
pub open spec fn next_build_step(step: BuildStep, reply: BuildReply) -> BuildStep {
    match (step, reply) {
        (BuildStep::CompileVertex { .. }, BuildReply::Compiled(Ok(vertex))) => {
            BuildStep::CompileFragment { source: FRAGMENT_SHADER_SOURCE, vertex }
        },
        (BuildStep::CompileVertex { .. }, BuildReply::Compiled(Err(report))) => {
            BuildStep::Finished(Err(RenderError::ShaderCompile(report)))
        },
        (BuildStep::CompileFragment { vertex, .. }, BuildReply::Compiled(Ok(fragment))) => {
            BuildStep::Link { vertex, fragment }
        },
        (BuildStep::CompileFragment { .. }, BuildReply::Compiled(Err(report))) => {
            BuildStep::Finished(Err(RenderError::ShaderCompile(report)))
        },
        (BuildStep::Link { .. }, BuildReply::Linked(Ok(program))) => {
            BuildStep::Finished(Ok(program))
        },
        (BuildStep::Link { .. }, BuildReply::Linked(Err(report))) => {
            BuildStep::Finished(Err(RenderError::ShaderLink(report)))
        },
        _ => step,
    }
}

/// The first step of building the program.
pub fn begin_build() -> (step: BuildStep)
    ensures
        step == (BuildStep::CompileVertex { source: VERTEX_SHADER_SOURCE }),
{
    BuildStep::CompileVertex { source: VERTEX_SHADER_SOURCE }
}

/// Takes the driver's report on `step` and says what to do next.
pub fn advance_build(step: BuildStep, reply: BuildReply) -> (next: BuildStep)
    ensures
        next == next_build_step(step, reply),
{
    match (step, reply) {
        (BuildStep::CompileVertex { .. }, BuildReply::Compiled(Ok(vertex))) => {
            BuildStep::CompileFragment { source: FRAGMENT_SHADER_SOURCE, vertex }
        },
        (BuildStep::CompileVertex { .. }, BuildReply::Compiled(Err(report))) => {
            BuildStep::Finished(Err(RenderError::ShaderCompile(report)))
        },
        (BuildStep::CompileFragment { vertex, .. }, BuildReply::Compiled(Ok(fragment))) => {
            BuildStep::Link { vertex, fragment }
        },
        (BuildStep::CompileFragment { .. }, BuildReply::Compiled(Err(report))) => {
            BuildStep::Finished(Err(RenderError::ShaderCompile(report)))
        },
        (BuildStep::Link { .. }, BuildReply::Linked(Ok(program))) => {
            BuildStep::Finished(Ok(program))
        },
        (BuildStep::Link { .. }, BuildReply::Linked(Err(report))) => {
            BuildStep::Finished(Err(RenderError::ShaderLink(report)))
        },
        (step, _) => step,
    }
}

/// How the compiler and the linker answer while the program is built.
pub struct Toolchain {
    /// The outcome of compiling the vertex stage.
    pub vertex: Result<WebGlShader, String>,
    /// The outcome of compiling the fragment stage.
    pub fragment: Result<WebGlShader, String>,
    /// The outcome of linking the two stages.
    pub linked: Result<WebGlProgram, String>,
}

/// What the driver reports on `step` with the given toolchain.
pub open spec fn build_answer(tools: Toolchain, step: BuildStep) -> BuildReply {
    match step {
        BuildStep::CompileVertex { .. } => BuildReply::Compiled(tools.vertex),
        BuildStep::CompileFragment { .. } => BuildReply::Compiled(tools.fragment),
        _ => BuildReply::Linked(tools.linked),
    }
}

/// The largest number of steps that can still follow `step` in one build.
pub open spec fn build_steps_ahead(step: BuildStep) -> nat {
    match step {
        BuildStep::CompileVertex { .. } => 3,
        BuildStep::CompileFragment { .. } => 2,
        BuildStep::Link { .. } => 1,
        BuildStep::Finished(_) => 0,
    }
}

/// The steps of a build from `step` on, with the given toolchain, the
/// finishing step last.
pub open spec fn build_trace(step: BuildStep, tools: Toolchain) -> Seq<BuildStep>
    decreases build_steps_ahead(step),
{
    if step is Finished {
        seq![step]
    } else {
        seq![step] + build_trace(next_build_step(step, build_answer(tools, step)), tools)
    }
}

/// The first step of every build.
pub open spec fn first_build_step() -> BuildStep {
    BuildStep::CompileVertex { source: VERTEX_SHADER_SOURCE }
}

/// When the vertex stage does not compile, the build ends at once with the
/// compiler's report: the fragment stage is not compiled and nothing is
/// linked.
pub proof fn law_build_vertex_failure(tools: Toolchain)
    requires
        tools.vertex is Err,
    ensures
        build_trace(first_build_step(), tools) == seq![
            first_build_step(),
            BuildStep::Finished(Err(RenderError::ShaderCompile(tools.vertex->Err_0))),
        ],
{
    reveal_with_fuel(build_trace, 3);
    assert(build_trace(first_build_step(), tools) =~= seq![
        first_build_step(),
        BuildStep::Finished(Err(RenderError::ShaderCompile(tools.vertex->Err_0))),
    ]);
}

/// When the vertex stage compiles and the fragment stage does not, the
/// build ends with the compiler's report and nothing is linked.
pub proof fn law_build_fragment_failure(tools: Toolchain)
    requires
        tools.vertex is Ok,
        tools.fragment is Err,
    ensures
        build_trace(first_build_step(), tools) == seq![
            first_build_step(),
            BuildStep::CompileFragment {
                source: FRAGMENT_SHADER_SOURCE,
                vertex: tools.vertex->Ok_0,
            },
            BuildStep::Finished(Err(RenderError::ShaderCompile(tools.fragment->Err_0))),
        ],
{
    reveal_with_fuel(build_trace, 4);
    assert(build_trace(first_build_step(), tools) =~= seq![
        first_build_step(),
        BuildStep::CompileFragment { source: FRAGMENT_SHADER_SOURCE, vertex: tools.vertex->Ok_0 },
        BuildStep::Finished(Err(RenderError::ShaderCompile(tools.fragment->Err_0))),
    ]);
}

/// When both stages compile, exactly these two are linked, and the build
/// ends with the linked program or with the linker's report.
pub proof fn law_build_links_both_stages(tools: Toolchain)
    requires
        tools.vertex is Ok,
        tools.fragment is Ok,
    ensures
        build_trace(first_build_step(), tools) == seq![
            first_build_step(),
            BuildStep::CompileFragment {
                source: FRAGMENT_SHADER_SOURCE,
                vertex: tools.vertex->Ok_0,
            },
            BuildStep::Link { vertex: tools.vertex->Ok_0, fragment: tools.fragment->Ok_0 },
            BuildStep::Finished(
                match tools.linked {
                    Ok(program) => Ok(program),
                    Err(report) => Err(RenderError::ShaderLink(report)),
                },
            ),
        ],
{
    reveal_with_fuel(build_trace, 5);
    assert(build_trace(first_build_step(), tools) =~= seq![
        first_build_step(),
        BuildStep::CompileFragment { source: FRAGMENT_SHADER_SOURCE, vertex: tools.vertex->Ok_0 },
        BuildStep::Link { vertex: tools.vertex->Ok_0, fragment: tools.fragment->Ok_0 },
        BuildStep::Finished(
            match tools.linked {
                Ok(program) => Ok(program),
                Err(report) => Err(RenderError::ShaderLink(report)),
            },
        ),
    ]);
}

/// Whatever the toolchain answers, a build ends either with a program or
/// with a compile or link failure, never with another kind of error; and it
/// ends with a program only if both stages compiled and linked. The same
/// toolchain always gives the same build.
pub proof fn law_build_fails_only_as_build(tools: Toolchain)
    ensures
        match build_trace(first_build_step(), tools).last() {
            BuildStep::Finished(Ok(program)) => {
                &&& tools.vertex is Ok
                &&& tools.fragment is Ok
                &&& tools.linked == Ok::<WebGlProgram, String>(program)
            },
            BuildStep::Finished(Err(error)) => {
                &&& error.is_build_failure()
                &&& tools.vertex is Err || tools.fragment is Err || tools.linked is Err
            },
            _ => false,
        },
{
    if tools.vertex is Err {
        law_build_vertex_failure(tools);
    } else if tools.fragment is Err {
        law_build_fragment_failure(tools);
    } else {
        law_build_links_both_stages(tools);
    }
}

} // verus!
