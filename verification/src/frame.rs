//! The steps of rendering one frame and the reports that answer them.

use vstd::prelude::*;
use crate::error::RenderError;
use crate::geometry::Position;

verus! {

/// A view-projection transform: sixteen coordinates in column-major order,
/// each held as the bit pattern of a 32-bit IEEE-754 number.
pub type Matrix = [u32; 16];

/// How one vertex attribute is laid out in the bound array buffer. The
/// components are 32-bit floating-point numbers.
#[derive(Clone, Copy, Debug, PartialEq, Eq, Structural)]
pub struct AttributeLayout {
    /// Index of the attribute that is described.
    pub index: u32,
    /// Number of components per vertex.
    pub components: i32,
    /// Whether the device is to normalize the values.
    pub normalized: bool,
    /// Bytes from one vertex to the next; zero means tightly packed.
    pub stride: i32,
    /// Bytes before the first vertex.
    pub offset: i32,
}

/// The layout of the position attribute: attribute 0, three components per
/// vertex, not normalized, tightly packed, from the start of the buffer.
pub open spec fn position_layout() -> AttributeLayout {
    AttributeLayout { index: 0, components: 3, normalized: false, stride: 0, offset: 0 }
}

/// What the driver has to do next while a frame is rendered.
#[derive(Debug, PartialEq, Eq)]
pub enum Step {
    /// Allocate a buffer object on the device.
    CreateBuffer,
    /// Bind the buffer just allocated as the active array buffer.
    BindArrayBuffer,
    /// Read the simulation's current particles, in its own order.
    ReadParticles,
    /// Upload the component's vertex data to the bound array buffer, as
    /// static draw data.
    UploadVertices,
    /// Allocate a vertex-array object on the device.
    CreateVertexArray,
    /// Bind the vertex-array object just allocated.
    BindVertexArray,
    /// Describe a vertex attribute of the bound vertex-array object.
    DescribeAttribute { layout: AttributeLayout },
    /// Look up the location of the named attribute in the program.
    ResolveAttribute { name: &'static str },
    /// Enable the attribute with the given index.
    EnableAttribute { index: u32 },
    /// Bind the frame's vertex-array object once more.
    RebindVertexArray,
    /// Make the component's program the current one.
    UseProgram,
    /// Look up the location of the named uniform in the program.
    ResolveUniform { name: &'static str },
    /// Ask the camera for its current view-projection transform.
    QueryCamera,
    /// Upload `matrix` to the uniform just looked up.
    UploadMatrix { transpose: bool, matrix: Matrix },
    /// Draw `count` vertices as points, starting at vertex `first`, from
    /// whatever vertex-array object is bound.
    DrawPoints { first: i32, count: i32 },
    /// Nothing more: the frame is done, or it failed.
    Finished(Result<(), RenderError>),
}

/// What the driver reports after performing a step.
#[derive(Debug, PartialEq, Eq)]
pub enum Reply {
    /// The step has been performed; it yields nothing to report.
    Done,
    /// Whether the device allocated the object asked for.
    Created(bool),
    /// The particles read from the simulation.
    Particles(Vec<Position>),
    /// The location that the device gave for an attribute name.
    Location(i32),
    /// The camera's transform, or the camera's own account of its failure.
    Camera(Result<Matrix, String>),
}

/// The vertex count as a draw call takes it: the low 32 bits of `count`,
/// read as a signed number. Counts up to `i32::MAX` are handed on as they
/// are.
pub open spec fn draw_count(count: nat) -> int {
    let low: int = count as int % 0x1_0000_0000;
    if low < 0x8000_0000 {
        low
    } else {
        low - 0x1_0000_0000
    }
}

/// The attribute index that stands for a location: the location's 32 bits
/// read as an unsigned number. Locations from zero up are handed on as they
/// are.
pub open spec fn attribute_index(location: i32) -> int {
    if location >= 0 {
        location as int
    } else {
        location + 0x1_0000_0000
    }
}

/// Computes `draw_count`.
pub fn draw_count_of(count: usize) -> (n: i32)
    ensures
        n == draw_count(count as nat),
{
    let low: u64 = (count as u64) % 0x1_0000_0000;
    if low < 0x8000_0000 {
        low as i32
    } else {
        (low as i64 - 0x1_0000_0000) as i32
    }
}

/// Computes `attribute_index`.
pub fn attribute_index_of(location: i32) -> (index: u32)
    ensures
        index == attribute_index(location),
{
    if location >= 0 {
        location as u32
    } else {
        (location as i64 + 0x1_0000_0000) as u32
    }
}

} // verus!
