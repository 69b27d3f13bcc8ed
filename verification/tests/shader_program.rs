use vorton_render::error::RenderError;
use vorton_render::program::{
    advance_build, begin_build, BuildReply, BuildStep, FRAGMENT_SHADER_SOURCE, MATRIX_UNIFORM,
    POSITION_ATTRIBUTE, VERTEX_SHADER_SOURCE,
};
use vorton_render::render::ProgramVortonRender;
use wasm_bindgen::convert::IntoWasmAbi;
use wasm_bindgen::JsValue;
use web_sys::{WebGlProgram, WebGlShader};

fn vertex_shader() -> WebGlShader {
    WebGlShader::from(JsValue::TRUE)
}

fn fragment_shader() -> WebGlShader {
    WebGlShader::from(JsValue::FALSE)
}

fn program() -> WebGlProgram {
    WebGlProgram::from(JsValue::NULL)
}

fn slot(value: &JsValue) -> u32 {
    value.into_abi()
}

fn error_of(step: BuildStep) -> RenderError {
    match step {
        BuildStep::Finished(Err(error)) => error,
        _ => panic!("the build did not fail"),
    }
}

#[test]
fn build_starts_with_the_vertex_stage() {
    match begin_build() {
        BuildStep::CompileVertex { source } => assert_eq!(source, VERTEX_SHADER_SOURCE),
        _ => panic!("expected the vertex stage"),
    }
}

#[test]
fn shader_sources_are_the_fixed_texts() {
    assert_eq!(
        VERTEX_SHADER_SOURCE,
        "\n     attribute vec4 vPosition;\n     uniform mat4 uMatrix;\n     void main()\n     {\n        gl_Position = uMatrix*vPosition;\n        gl_PointSize = 2.5;\n     }\n            "
    );
    assert_eq!(
        FRAGMENT_SHADER_SOURCE,
        "\n     precision mediump float;\n     void main()\n     {\n       gl_FragColor = vec4(0.9, 0.9, 0.9, 1);\n     }\n            "
    );
    assert_eq!(POSITION_ATTRIBUTE, "vPosition");
    assert_eq!(MATRIX_UNIFORM, "uMatrix");
    assert!(VERTEX_SHADER_SOURCE.contains(POSITION_ATTRIBUTE));
    assert!(VERTEX_SHADER_SOURCE.contains(MATRIX_UNIFORM));
}

#[test]
fn build_compiles_both_stages_and_links_them() {
    let step = begin_build();
    let step = advance_build(step, BuildReply::Compiled(Ok(vertex_shader())));
    match &step {
        BuildStep::CompileFragment { source, vertex } => {
            assert_eq!(*source, FRAGMENT_SHADER_SOURCE);
            assert_eq!(slot(vertex.as_ref()), slot(&JsValue::TRUE));
        }
        _ => panic!("expected the fragment stage"),
    }
    let step = advance_build(step, BuildReply::Compiled(Ok(fragment_shader())));
    match &step {
        BuildStep::Link { vertex, fragment } => {
            assert_eq!(slot(vertex.as_ref()), slot(&JsValue::TRUE));
            assert_eq!(slot(fragment.as_ref()), slot(&JsValue::FALSE));
        }
        _ => panic!("expected the link"),
    }
    let step = advance_build(step, BuildReply::Linked(Ok(program())));
    match step {
        BuildStep::Finished(Ok(linked)) => {
            assert_eq!(slot(linked.as_ref()), slot(&JsValue::NULL));
            let component = ProgramVortonRender::new(linked);
            assert_eq!(component.vertex_count(), 0);
            assert!(component.vertices().is_empty());
            assert_eq!(slot(component.program().as_ref()), slot(&JsValue::NULL));
        }
        _ => panic!("expected the linked program"),
    }
}

#[test]
fn a_vertex_stage_that_does_not_compile_ends_the_build() {
    let step = begin_build();
    let step = advance_build(step, BuildReply::Compiled(Err(String::from("bad vertex stage"))));
    assert_eq!(error_of(step), RenderError::ShaderCompile(String::from("bad vertex stage")));
}

#[test]
fn a_fragment_stage_that_does_not_compile_ends_the_build() {
    let step = begin_build();
    let step = advance_build(step, BuildReply::Compiled(Ok(vertex_shader())));
    let step = advance_build(step, BuildReply::Compiled(Err(String::from("bad fragment stage"))));
    assert_eq!(error_of(step), RenderError::ShaderCompile(String::from("bad fragment stage")));
}

#[test]
fn stages_that_do_not_link_end_the_build() {
    let step = begin_build();
    let step = advance_build(step, BuildReply::Compiled(Ok(vertex_shader())));
    let step = advance_build(step, BuildReply::Compiled(Ok(fragment_shader())));
    let step = advance_build(step, BuildReply::Linked(Err(String::from("no entry point"))));
    assert_eq!(error_of(step), RenderError::ShaderLink(String::from("no entry point")));
}

#[test]
fn a_failed_build_is_never_a_resource_failure() {
    let failures = vec![
        error_of(advance_build(begin_build(), BuildReply::Compiled(Err(String::from("a"))))),
        error_of(advance_build(
            advance_build(begin_build(), BuildReply::Compiled(Ok(vertex_shader()))),
            BuildReply::Compiled(Err(String::from("b"))),
        )),
        error_of(advance_build(
            advance_build(
                advance_build(begin_build(), BuildReply::Compiled(Ok(vertex_shader()))),
                BuildReply::Compiled(Ok(fragment_shader())),
            ),
            BuildReply::Linked(Err(String::from("c"))),
        )),
    ];
    for failure in failures {
        assert!(matches!(failure, RenderError::ShaderCompile(_) | RenderError::ShaderLink(_)));
    }
}

#[test]
fn a_failed_build_stays_failed() {
    let step = advance_build(begin_build(), BuildReply::Compiled(Err(String::from("bad"))));
    let step = advance_build(step, BuildReply::Compiled(Ok(fragment_shader())));
    let step = advance_build(step, BuildReply::Linked(Ok(program())));
    assert_eq!(error_of(step), RenderError::ShaderCompile(String::from("bad")));
}

#[test]
fn a_build_report_of_the_wrong_kind_is_ignored() {
    let step = advance_build(begin_build(), BuildReply::Linked(Ok(program())));
    assert!(matches!(step, BuildStep::CompileVertex { .. }));
    let step = advance_build(step, BuildReply::Linked(Err(String::from("too early"))));
    assert!(matches!(step, BuildStep::CompileVertex { .. }));
    let step = advance_build(step, BuildReply::Compiled(Ok(vertex_shader())));
    let step = advance_build(step, BuildReply::Compiled(Ok(fragment_shader())));
    let step = advance_build(step, BuildReply::Compiled(Ok(fragment_shader())));
    match &step {
        BuildStep::Link { vertex, fragment } => {
            assert_eq!(slot(vertex.as_ref()), slot(&JsValue::TRUE));
            assert_eq!(slot(fragment.as_ref()), slot(&JsValue::FALSE));
        }
        _ => panic!("expected the link to stay pending"),
    }
}
