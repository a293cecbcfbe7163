//! The mesh buffer: one vertex array object with its vertex and index
//! buffers, filled once from caller-owned arrays.

use vstd::prelude::*;
use crate::calls::{BufferTarget, BufferUsage, GlCall, MeshData, occurrences};
use crate::layout::{
    byte_size, color_attrib, color_layout, position_attrib, position_layout, record_stride_bytes,
    COLOR_LOCATION, FLOAT_BYTES, INDEX_BYTES, POSITION_LOCATION, RECORD_FLOATS,
};

verus! {

/// The three object names that the driver handed out for one mesh.
#[derive(Clone, Copy, Debug, PartialEq, Eq, Structural)]
pub struct MeshObjects {
    pub vao: u32,
    pub vbo: u32,
    pub ebo: u32,
}

/// A vertex array object with its vertex buffer and index buffer. The three
/// names are taken together and released together; the buffer contents never
/// change after the upload.
pub struct Drawer {
    vao: u32,
    vbo: u32,
    ebo: u32,
    vertex_floats: usize,
    index_count: usize,
}

/// The calls that fill the mesh objects `o` from `vertex_floats` floats and
/// `index_count` indices: bind the vertex array, upload both arrays for static
/// use, describe the position and colour attributes, then unbind everything.
pub open spec fn mesh_setup_calls(o: MeshObjects, vertex_floats: nat, index_count: nat) -> Seq<
    GlCall,
> {
    seq![
        GlCall::BindVertexArray { vao: o.vao },
        GlCall::BindBuffer { target: BufferTarget::Array, buffer: o.vbo },
        GlCall::BufferData {
            target: BufferTarget::Array,
            bytes: (vertex_floats * FLOAT_BYTES) as isize,
            data: MeshData::Vertices,
            usage: BufferUsage::StaticDraw,
        },
        GlCall::BindBuffer { target: BufferTarget::ElementArray, buffer: o.ebo },
        GlCall::BufferData {
            target: BufferTarget::ElementArray,
            bytes: (index_count * INDEX_BYTES) as isize,
            data: MeshData::Indices,
            usage: BufferUsage::StaticDraw,
        },
        GlCall::VertexAttribPointer { layout: position_attrib() },
        GlCall::EnableVertexAttribArray { location: POSITION_LOCATION },
        GlCall::VertexAttribPointer { layout: color_attrib() },
        GlCall::EnableVertexAttribArray { location: COLOR_LOCATION },
        GlCall::BindBuffer { target: BufferTarget::Array, buffer: 0 },
        GlCall::BindVertexArray { vao: 0 },
        GlCall::BindBuffer { target: BufferTarget::ElementArray, buffer: 0 },
    ]
}

/// The calls that give the mesh objects `o` back: the index buffer, the
/// vertex buffer, then the vertex array.
pub open spec fn mesh_release_calls(o: MeshObjects) -> Seq<GlCall> {
    seq![
        GlCall::DeleteBuffer { buffer: o.ebo },
        GlCall::DeleteBuffer { buffer: o.vbo },
        GlCall::DeleteVertexArray { vao: o.vao },
    ]
}

impl Drawer {
    /// The object names this mesh owns.
    pub closed spec fn objects(&self) -> MeshObjects {
        MeshObjects { vao: self.vao, vbo: self.vbo, ebo: self.ebo }
    }

    /// The number of floats uploaded to the vertex buffer.
    pub closed spec fn vertex_float_count(&self) -> nat {
        self.vertex_floats as nat
    }

    /// The number of indices uploaded to the index buffer.
    pub closed spec fn index_total(&self) -> nat {
        self.index_count as nat
    }

    /// Takes the freshly created objects `objects` and returns the mesh with
    /// the calls that upload `vertex_floats` floats and `index_count` indices
    /// into them. A draw reads `index_count` indices. The lengths are not
    /// checked against each other or against the stride.
    pub fn init(objects: MeshObjects, vertex_floats: usize, index_count: usize) -> (r: (
        Drawer,
        Vec<GlCall>,
    ))
        requires
            vertex_floats * FLOAT_BYTES <= isize::MAX,
            index_count * INDEX_BYTES <= isize::MAX,
        ensures
            r.0.objects() == objects,
            r.0.vertex_float_count() == vertex_floats,
            r.0.index_total() == index_count,
            r.1@ == mesh_setup_calls(objects, vertex_floats as nat, index_count as nat),
    {
        let mut calls: Vec<GlCall> = Vec::new();
        calls.push(GlCall::BindVertexArray { vao: objects.vao });
        calls.push(GlCall::BindBuffer { target: BufferTarget::Array, buffer: objects.vbo });
        calls.push(
            GlCall::BufferData {
                target: BufferTarget::Array,
                bytes: byte_size(vertex_floats, FLOAT_BYTES),
                data: MeshData::Vertices,
                usage: BufferUsage::StaticDraw,
            },
        );
        calls.push(GlCall::BindBuffer { target: BufferTarget::ElementArray, buffer: objects.ebo });
        calls.push(
            GlCall::BufferData {
                target: BufferTarget::ElementArray,
                bytes: byte_size(index_count, INDEX_BYTES),
                data: MeshData::Indices,
                usage: BufferUsage::StaticDraw,
            },
        );
        let position = position_layout();
        calls.push(GlCall::VertexAttribPointer { layout: position });
        calls.push(GlCall::EnableVertexAttribArray { location: position.location });
        let color = color_layout();
        calls.push(GlCall::VertexAttribPointer { layout: color });
        calls.push(GlCall::EnableVertexAttribArray { location: color.location });
        calls.push(GlCall::BindBuffer { target: BufferTarget::Array, buffer: 0 });
        calls.push(GlCall::BindVertexArray { vao: 0 });
        calls.push(GlCall::BindBuffer { target: BufferTarget::ElementArray, buffer: 0 });
        let drawer = Drawer {
            vao: objects.vao,
            vbo: objects.vbo,
            ebo: objects.ebo,
            vertex_floats,
            index_count,
        };
        assert(calls@ =~= mesh_setup_calls(objects, vertex_floats as nat, index_count as nat));
        (drawer, calls)
    }

    /// The vertex array name, for binding before a draw.
    pub fn vao(&self) -> (r: u32)
        ensures
            r == self.objects().vao,
    {
        self.vao
    }

    /// The call that binds this mesh's vertex array.
    pub fn bind(&self) -> (r: GlCall)
        ensures
            r == (GlCall::BindVertexArray { vao: self.objects().vao }),
    {
        GlCall::BindVertexArray { vao: self.vao }
    }

    /// The number of indices a draw of this mesh reads.
    pub fn index_count(&self) -> (r: usize)
        ensures
            r == self.index_total(),
    {
        self.index_count
    }

    /// The number of whole records in the vertex buffer.
    pub fn record_count(&self) -> (r: usize)
        ensures
            r == self.vertex_float_count() / (RECORD_FLOATS as nat),
    {
        self.vertex_floats / RECORD_FLOATS
    }

    /// Gives up the mesh and returns the calls that release its vertex
    /// array and both buffers, each exactly once.
    pub fn release(self) -> (r: Vec<GlCall>)
        ensures
            r@ == mesh_release_calls(self.objects()),
    {
        let mut calls: Vec<GlCall> = Vec::new();
        calls.push(GlCall::DeleteBuffer { buffer: self.ebo });
        calls.push(GlCall::DeleteBuffer { buffer: self.vbo });
        calls.push(GlCall::DeleteVertexArray { vao: self.vao });
        assert(calls@ =~= mesh_release_calls(self.objects()));
        calls
    }
}

/// Releasing a mesh deletes its index buffer, its vertex buffer and its
/// vertex array exactly once each, and no other object.
pub proof fn lemma_release_frees_each_once(o: MeshObjects)
    requires
        o.vbo != o.ebo,
    ensures
        occurrences(mesh_release_calls(o), GlCall::DeleteBuffer { buffer: o.ebo }) == 1,
        occurrences(mesh_release_calls(o), GlCall::DeleteBuffer { buffer: o.vbo }) == 1,
        occurrences(mesh_release_calls(o), GlCall::DeleteVertexArray { vao: o.vao }) == 1,
        forall|b: u32|
            b != o.vbo && b != o.ebo ==> #[trigger] occurrences(
                mesh_release_calls(o),
                GlCall::DeleteBuffer { buffer: b },
            ) == 0,
        forall|v: u32|
            v != o.vao ==> #[trigger] occurrences(
                mesh_release_calls(o),
                GlCall::DeleteVertexArray { vao: v },
            ) == 0,
{
    let calls = mesh_release_calls(o);
    assert(calls.drop_last().drop_last().drop_last() =~= Seq::<GlCall>::empty());
    reveal_with_fuel(occurrences, 4);
}

/// A mesh filled from `records` whole records and `indices` indices uploads
/// exactly `records` strides of vertex data and `indices` index entries,
/// and a draw of it reads `indices` indices.
pub proof fn lemma_upload_matches_records(o: MeshObjects, records: nat, indices: nat)
    requires
        records * RECORD_FLOATS * FLOAT_BYTES <= isize::MAX,
        indices * INDEX_BYTES <= isize::MAX,
    ensures
        ({
            let calls = mesh_setup_calls(o, (records * RECORD_FLOATS) as nat, indices);
            &&& calls[2] matches GlCall::BufferData { target: BufferTarget::Array, bytes, .. }
                && bytes as int / record_stride_bytes() == records
            &&& calls[4] matches GlCall::BufferData {
                target: BufferTarget::ElementArray,
                bytes,
                ..
            } && bytes as int / (INDEX_BYTES as int) == indices
        }),
{
    let calls = mesh_setup_calls(o, (records * RECORD_FLOATS) as nat, indices);
    assert(records * RECORD_FLOATS * FLOAT_BYTES == records * 28) by (nonlinear_arith);
    assert((records * 28) / 28 == records) by (nonlinear_arith);
    assert((indices * 4) / 4 == indices) by (nonlinear_arith);
}

} // verus!
