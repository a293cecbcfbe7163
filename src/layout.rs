//! Layout of the interleaved vertex records: a position of three floats
//! followed by a colour of four floats.

use vstd::prelude::*;

verus! {

/// Bytes taken by one `GLfloat`.
pub const FLOAT_BYTES: usize = 4;

/// Bytes taken by one entry of the index buffer (`GLint` / `GLuint`).
pub const INDEX_BYTES: usize = 4;

/// Floats in the position part of a record.
pub const POSITION_COMPONENTS: i32 = 3;

/// Floats in the colour part of a record.
pub const COLOR_COMPONENTS: i32 = 4;

/// Floats in one whole interleaved record.
pub const RECORD_FLOATS: usize = 7;

/// Bytes from the start of one record to the start of the next.
pub const RECORD_STRIDE: i32 = 28;

/// Shader input slot of the position attribute.
pub const POSITION_LOCATION: u32 = 0;

/// Shader input slot of the colour attribute.
pub const COLOR_LOCATION: u32 = 1;

/// How one vertex attribute is read out of the vertex buffer: its shader
/// slot, how many float components it has, the stride between records and
/// the byte offset of the attribute inside a record. Components are always
/// unnormalised floats.
#[derive(Clone, Copy, Debug, PartialEq, Eq, Structural)]
pub struct AttribLayout {
    pub location: u32,
    pub components: i32,
    pub stride: i32,
    pub offset: usize,
}

/// The stride in bytes of one record, as a mathematical integer.
pub open spec fn record_stride_bytes() -> int {
    RECORD_FLOATS * FLOAT_BYTES
}

/// The position attribute: slot 0, three floats at the start of each record.
pub open spec fn position_attrib() -> AttribLayout {
    AttribLayout {
        location: POSITION_LOCATION,
        components: POSITION_COMPONENTS,
        stride: record_stride_bytes() as i32,
        offset: 0,
    }
}

/// The colour attribute: slot 1, four floats right after the position.
pub open spec fn color_attrib() -> AttribLayout {
    AttribLayout {
        location: COLOR_LOCATION,
        components: COLOR_COMPONENTS,
        stride: record_stride_bytes() as i32,
        offset: (POSITION_COMPONENTS * FLOAT_BYTES) as usize,
    }
}

/// The position attribute.
pub fn position_layout() -> (r: AttribLayout)
    ensures
        r == position_attrib(),
{
    AttribLayout {
        location: POSITION_LOCATION,
        components: POSITION_COMPONENTS,
        stride: RECORD_STRIDE,
        offset: 0,
    }
}

/// The colour attribute.
pub fn color_layout() -> (r: AttribLayout)
    ensures
        r == color_attrib(),
{
    AttribLayout {
        location: COLOR_LOCATION,
        components: COLOR_COMPONENTS,
        stride: RECORD_STRIDE,
        offset: (POSITION_COMPONENTS as usize) * FLOAT_BYTES,
    }
}

/// The size in bytes of `count` elements of `elem_bytes` bytes each, as the
/// signed size type that buffer uploads take. The size of any slice in memory
/// fits that type.
pub fn byte_size(count: usize, elem_bytes: usize) -> (r: isize)
    requires
        count * elem_bytes <= isize::MAX,
    ensures
        r == count * elem_bytes,
{
    (count * elem_bytes) as isize
}

} // verus!
