use vorton_render::error::{RenderError, ResourceKind};

#[test]
fn resource_kinds_have_short_names() {
    assert_eq!(ResourceKind::Buffer.name(), "buffer");
    assert_eq!(ResourceKind::VertexArray.name(), "vertex_array");
}

#[test]
fn resource_failures_say_what_was_not_created() {
    assert_eq!(
        RenderError::ResourceCreation(ResourceKind::Buffer).message(),
        "Failed to create buffer"
    );
    assert_eq!(
        RenderError::ResourceCreation(ResourceKind::VertexArray).message(),
        "Could not create vertex array object"
    );
}

#[test]
fn outside_reports_are_given_as_they_came() {
    assert_eq!(RenderError::ShaderCompile(String::from("0:3 syntax error")).message(), "0:3 syntax error");
    assert_eq!(RenderError::ShaderLink(String::from("varyings differ")).message(), "varyings differ");
    assert_eq!(RenderError::Camera(String::from("no area")).message(), "no area");
    assert_eq!(RenderError::Camera(String::new()).message(), "");
}

#[test]
fn errors_of_different_kinds_differ() {
    let report = String::from("same words");
    assert_ne!(RenderError::ShaderCompile(report.clone()), RenderError::ShaderLink(report.clone()));
    assert_ne!(RenderError::ShaderLink(report.clone()), RenderError::Camera(report.clone()));
    assert_ne!(
        RenderError::ResourceCreation(ResourceKind::Buffer),
        RenderError::ResourceCreation(ResourceKind::VertexArray)
    );
}
