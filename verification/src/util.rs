//! The vertex type and its binary buffer layout.
//!
//! A vertex is one 3-component float position. The pipeline declares a
//! single `Float32x3` attribute at offset 0, so the byte layout of a
//! vertex buffer is fixed: three 32-bit words per vertex, little-endian,
//! with no padding — a stride of twelve bytes. This module carries the
//! position components as IEEE-754 bit patterns and proves that the
//! flattened word image matches that layout exactly.

use vstd::prelude::*;

verus! {

/// Byte stride of one vertex in the vertex buffer: three 32-bit floats.
pub const VERTEX_STRIDE_BYTES: u32 = 12;

/// Byte offset of the position attribute inside a vertex.
pub const VERTEX_POSITION_OFFSET: u32 = 0;

/// Shader location the position attribute is bound to.
pub const VERTEX_POSITION_LOCATION: u32 = 0;

/// Number of 32-bit float components in the position attribute.
pub const VERTEX_POSITION_COMPONENTS: u32 = 3;

/// One vertex of the mesh: the IEEE-754 bit patterns of its x, y and z
/// position components. Immutable after creation — the base geometry
/// does not change at runtime.
#[derive(Clone, Copy, PartialEq, Eq, Structural, Debug)]
pub struct Vertex {
    pub x_bits: u32,
    pub y_bits: u32,
    pub z_bits: u32,
}

impl Vertex {
    pub fn new(x_bits: u32, y_bits: u32, z_bits: u32) -> (v: Vertex)
        ensures
            v == (Vertex { x_bits, y_bits, z_bits }),
    {
        Vertex { x_bits, y_bits, z_bits }
    }
}

/// Word image of a vertex sequence: the three position components of
/// each vertex in order, with nothing between them.
pub open spec fn vertex_words(vs: Seq<Vertex>) -> Seq<u32>
    decreases vs.len(),
{
    if vs.len() == 0 {
        Seq::empty()
    } else {
        seq![vs[0].x_bits, vs[0].y_bits, vs[0].z_bits] + vertex_words(vs.drop_first())
    }
}

/// The word image holds three words — `VERTEX_STRIDE_BYTES` bytes — per
/// vertex: the pipeline's declared stride matches the buffer layout.
pub proof fn lemma_vertex_words_len(vs: Seq<Vertex>)
    ensures
        vertex_words(vs).len() == 3 * vs.len(),
    decreases vs.len(),
{
    if vs.len() != 0 {
        lemma_vertex_words_len(vs.drop_first());
    }
}

/// Flattens vertices into the words of their vertex-buffer image.
pub fn vertex_buffer_words(vs: &Vec<Vertex>) -> (ws: Vec<u32>)
    ensures
        ws@ == vertex_words(vs@),
        ws@.len() == 3 * vs@.len(),
{
    let mut ws: Vec<u32> = Vec::new();
    let mut i: usize = 0;
    proof {
        assert(vs@.skip(0) =~= vs@);
    }
    while i < vs.len()
        invariant
            i <= vs@.len(),
            ws@.len() == 3 * i,
            vertex_words(vs@) == ws@ + vertex_words(vs@.skip(i as int)),
        decreases vs@.len() - i,
    {
        let v = vs[i];
        proof {
            let rest = vs@.skip(i as int);
            assert(rest[0] == vs@[i as int]);
            assert(rest.drop_first() =~= vs@.skip(i as int + 1));
            assert(ws@ + vertex_words(rest) =~= ws@.push(v.x_bits).push(v.y_bits).push(
                v.z_bits,
            ) + vertex_words(vs@.skip(i as int + 1)));
        }
        ws.push(v.x_bits);
        ws.push(v.y_bits);
        ws.push(v.z_bits);
        i = i + 1;
    }
    proof {
        assert(vs@.skip(vs@.len() as int) =~= Seq::<Vertex>::empty());
        assert(ws@ + vertex_words(vs@.skip(vs@.len() as int)) =~= ws@);
        lemma_vertex_words_len(vs@);
    }
    ws
}

} // verus!
