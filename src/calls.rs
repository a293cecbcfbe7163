//! The graphics calls that the library decides on. Each value names one
//! driver entry point together with all of its arguments; the host program
//! performs them in order.

use vstd::prelude::*;
use crate::layout::AttribLayout;

verus! {

/// A binding point for buffer objects.
#[derive(Clone, Copy, Debug, PartialEq, Eq, Structural)]
pub enum BufferTarget {
    /// Per-vertex data (`ARRAY_BUFFER`).
    Array,
    /// Triangle connectivity (`ELEMENT_ARRAY_BUFFER`).
    ElementArray,
}

/// Which caller-owned array a buffer upload copies from.
#[derive(Clone, Copy, Debug, PartialEq, Eq, Structural)]
pub enum MeshData {
    /// The interleaved vertex records.
    Vertices,
    /// The index list.
    Indices,
}

/// How uploaded buffer contents are used. Mesh data is written once.
#[derive(Clone, Copy, Debug, PartialEq, Eq, Structural)]
pub enum BufferUsage {
    StaticDraw,
}

/// The primitive assembled from the indices of a draw.
#[derive(Clone, Copy, Debug, PartialEq, Eq, Structural)]
pub enum DrawMode {
    Triangles,
}

/// The element type of the index buffer.
#[derive(Clone, Copy, Debug, PartialEq, Eq, Structural)]
pub enum IndexType {
    /// 32-bit unsigned indices.
    UnsignedInt,
}

/// One graphics call with its arguments.
#[derive(Debug, PartialEq, Eq)]
pub enum GlCall {
    ShaderSource { shader: u32, source: String },
    CompileShader { shader: u32 },
    AttachShader { program: u32, shader: u32 },
    LinkProgram { program: u32 },
    DeleteShader { shader: u32 },
    UseProgram { program: u32 },
    DeleteProgram { program: u32 },
    BindVertexArray { vao: u32 },
    BindBuffer { target: BufferTarget, buffer: u32 },
    BufferData { target: BufferTarget, bytes: isize, data: MeshData, usage: BufferUsage },
    VertexAttribPointer { layout: AttribLayout },
    EnableVertexAttribArray { location: u32 },
    DeleteBuffer { buffer: u32 },
    DeleteVertexArray { vao: u32 },
    /// Clear the colour buffer.
    Clear,
    Viewport { x: i32, y: i32, width: i32, height: i32 },
    DrawElements { mode: DrawMode, count: i32, index_type: IndexType },
}

/// The number of times `c` occurs in `calls`.
pub open spec fn occurrences(calls: Seq<GlCall>, c: GlCall) -> nat
    decreases calls.len(),
{
    if calls.len() == 0 {
        0
    } else {
        occurrences(calls.drop_last(), c) + if calls.last() == c { 1nat } else { 0nat }
    }
}

/// Whether `calls` holds a draw call.
pub open spec fn has_draw(calls: Seq<GlCall>) -> bool {
    exists|i: int| 0 <= i < calls.len() && (#[trigger] calls[i]) is DrawElements
}

} // verus!
