//! The driver calls a frame asks for, as plain values.
//!
//! The library decides what the driver must do; an unverified shell
//! performs each command with the corresponding driver call, in the order
//! given. Binding state on the driver side is global and is not assumed to
//! persist across frames, so every frame's command list re-asserts the
//! bindings it needs before its draw.

use vstd::prelude::*;

use crate::events::Viewport;
use crate::uniforms::UniformValue;

verus! {

/// One uniform write requested for a frame: the value the named uniform
/// shall take before the draw.
#[derive(Clone, PartialEq, Eq, Debug)]
pub struct UniformWrite {
    pub name: String,
    pub value: UniformValue,
}

/// One call into the graphics driver.
#[derive(Clone, PartialEq, Eq, Debug)]
pub enum RenderCommand {
    /// Map rendering output to the given pixel rectangle.
    SetViewport { viewport: Viewport },
    /// Clear the color buffer to the configured clear color.
    ClearColorBuffer,
    /// Make the given linked program active for subsequent draws.
    UseProgram { program: u32 },
    /// Bind the given vertex-array object.
    BindVertexArray { array: u32 },
    /// Bind the given index buffer.
    BindElementBuffer { buffer: u32 },
    /// Resolve the name in the active program and upload the value; an
    /// unresolved name makes this a no-op.
    SetUniform { name: String, value: UniformValue },
    /// Draw `vertex_count` vertices as a triangle list, without indices.
    DrawTriangles { vertex_count: usize },
    /// Draw `index_count` indices of the bound index buffer as a triangle
    /// list.
    DrawIndexedTriangles { index_count: usize },
    /// Present the finished frame by swapping the front and back buffers.
    SwapBuffers,
}

} // verus!
