//! The shader pair and triangle that the renderer draws, and the layout in
//! which the triangle's positions are handed to the graphics API.
use vstd::prelude::*;

verus! {

/// Number of coordinates in one vertex position.
pub const COMPONENTS_PER_VERTEX: usize = 3;

/// Size in bytes of one coordinate (a 32-bit float).
pub const BYTES_PER_COMPONENT: usize = 4;

/// Number of coordinates held: three vertices of three coordinates.
pub const COMPONENT_COUNT: usize = 9;

/// The two shader stages' source texts and one triangle's positions.
/// Each coordinate is held as the bit pattern of a 32-bit IEEE-754 float.
#[derive(Clone, Debug, PartialEq)]
pub struct Shader {
    pub vertex_shader_string: String,
    pub fragment_shader_string: String,
    pub vertices: [u32; 9],
}

/// How the graphics API reads one vertex attribute out of the bound buffer.
#[derive(Clone, Copy, Debug, PartialEq, Eq, Structural)]
pub struct VertexAttribute {
    /// The attribute slot.
    pub index: u32,
    /// Coordinates per vertex.
    pub components: i32,
    /// Whether fixed-point values are normalized (never, for floats).
    pub normalized: bool,
    /// Bytes from one vertex to the next.
    pub stride: i32,
    /// Byte offset of the first vertex in the buffer.
    pub offset: usize,
}

/// One upload of the triangle into a new array buffer.
#[derive(Clone, Copy, Debug, PartialEq, Eq)]
pub struct GeometryUpload {
    /// The coordinates, as float bit patterns, in buffer order.
    pub words: [u32; 9],
    /// Size of the buffer data in bytes.
    pub byte_len: isize,
    /// The layout of the position attribute.
    pub attribute: VertexAttribute,
}

/// One draw call over the uploaded buffer, as a triangle list.
#[derive(Clone, Copy, Debug, PartialEq, Eq, Structural)]
pub struct DrawCall {
    pub first: i32,
    pub count: i32,
}

/// Whether a text can be handed to the graphics API as a NUL-terminated
/// string: it holds no NUL byte.
pub open spec fn has_no_nul(bytes: Seq<u8>) -> bool {
    forall|i: int| 0 <= i < bytes.len() ==> bytes[i] != 0
}

/// Checks that a shader source holds no NUL byte.
pub fn is_c_compatible(bytes: &[u8]) -> (r: bool)
    ensures
        r == has_no_nul(bytes@),
{
    let mut i: usize = 0;
    while i < bytes.len()
        invariant
            i <= bytes@.len(),
            has_no_nul(bytes@.subrange(0, i as int)),
        decreases bytes@.len() - i,
    {
        if bytes[i] == 0 {
            assert(bytes@[i as int] == 0);
            return false;
        }
        i = i + 1;
        assert(has_no_nul(bytes@.subrange(0, i as int))) by {
            assert forall|j: int| 0 <= j < i implies bytes@.subrange(0, i as int)[j] != 0 by {
                if j < i - 1 {
                    assert(bytes@.subrange(0, i as int)[j] == bytes@.subrange(0, i - 1)[j]);
                }
            }
        }
    }
    assert(bytes@.subrange(0, i as int) =~= bytes@);
    true
}

impl Shader {
    /// Holds the two shader texts and the triangle's coordinates as given.
    pub fn new(vertex_source: String, fragment_source: String, vertices_vector: [u32; 9]) -> (r: Shader)
        ensures
            r.vertex_shader_string@ == vertex_source@,
            r.fragment_shader_string@ == fragment_source@,
            r.vertices@ == vertices_vector@,
    {
        Shader {
            vertex_shader_string: vertex_source,
            fragment_shader_string: fragment_source,
            vertices: vertices_vector,
        }
    }

    /// The upload of the triangle: all nine coordinates in order, 36 bytes,
    /// read as attribute 0 of three tightly packed floats from offset 0.
    pub fn geometry_upload(&self) -> (r: GeometryUpload)
        ensures
            r.words@ == self.vertices@,
            r.byte_len == 36,
            r.byte_len == self.vertices@.len() * BYTES_PER_COMPONENT,
            r.attribute == (VertexAttribute {
                index: 0,
                components: 3,
                normalized: false,
                stride: 12,
                offset: 0,
            }),
    {
        GeometryUpload {
            words: self.vertices,
            byte_len: (COMPONENT_COUNT * BYTES_PER_COMPONENT) as isize,
            attribute: VertexAttribute {
                index: 0,
                components: COMPONENTS_PER_VERTEX as i32,
                normalized: false,
                stride: (COMPONENTS_PER_VERTEX * BYTES_PER_COMPONENT) as i32,
                offset: 0,
            },
        }
    }

    /// The draw call for the triangle: its three vertices from the first.
    pub fn draw_call(&self) -> (r: DrawCall)
        ensures
            r.first == 0,
            r.count == 3,
            r.count == self.vertices@.len() as int / COMPONENTS_PER_VERTEX as int,
    {
        DrawCall { first: 0, count: (COMPONENT_COUNT / COMPONENTS_PER_VERTEX) as i32 }
    }
}

} // verus!
