//! The ways in which building the shader program or rendering a frame fails.

use vstd::prelude::*;

verus! {

/// A kind of object that the graphics device is asked to allocate per frame.
#[derive(Clone, Copy, Debug, PartialEq, Eq, Structural)]
pub enum ResourceKind {
    Buffer,
    VertexArray,
}

impl ResourceKind {
    /// The short name of the kind, as spec text.
    pub open spec fn name_spec(self) -> Seq<char> {
        match self {
            ResourceKind::Buffer => "buffer"@,
            ResourceKind::VertexArray => "vertex_array"@,
        }
    }

    /// The short name of the kind: `buffer` or `vertex_array`.
    pub fn name(&self) -> (name: &'static str)
        ensures
            name@ == self.name_spec(),
    {
        match self {
            ResourceKind::Buffer => "buffer",
            ResourceKind::VertexArray => "vertex_array",
        }
    }
}

/// Why a shader program could not be built or a frame could not be rendered.
///
/// Nothing is retried inside the library: every failure ends the operation
/// in which it arose and is handed to the caller.
#[derive(Clone, Debug, PartialEq, Eq)]
pub enum RenderError {
    /// A shader stage did not compile; the text is the compiler's report.
    ShaderCompile(String),
    /// The two stages did not link; the text is the linker's report.
    ShaderLink(String),
    /// The device could not allocate an object of the given kind.
    ResourceCreation(ResourceKind),
    /// The camera could not give a transform; the text is the camera's own.
    Camera(String),
}

impl RenderError {
    /// The text of `message`.
    pub open spec fn message_spec(self) -> Seq<char> {
        match self {
            RenderError::ShaderCompile(report) => report@,
            RenderError::ShaderLink(report) => report@,
            RenderError::ResourceCreation(ResourceKind::Buffer) => "Failed to create buffer"@,
            RenderError::ResourceCreation(ResourceKind::VertexArray)
                => "Could not create vertex array object"@,
            RenderError::Camera(report) => report@,
        }
    }

    /// A line of text for the error. Reports that came from outside are
    /// given as they came.
    pub fn message(&self) -> (text: String)
        ensures
            text@ == self.message_spec(),
    {
        match self {
            RenderError::ShaderCompile(report) => report.clone(),
            RenderError::ShaderLink(report) => report.clone(),
            RenderError::ResourceCreation(ResourceKind::Buffer) => "Failed to create buffer".to_owned(),
            RenderError::ResourceCreation(ResourceKind::VertexArray)
                => "Could not create vertex array object".to_owned(),
            RenderError::Camera(report) => report.clone(),
        }
    }

    /// Whether the error can only arise while the shader program is built.
    pub open spec fn is_build_failure(self) -> bool {
        self is ShaderCompile || self is ShaderLink
    }
}

} // verus!
