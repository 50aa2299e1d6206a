//! The geometry pipeline: the fixed mesh, the uniform state, and the
//! commands of one draw.
//!
//! The pipeline owns static vertex and index buffers for a single
//! triangle, one uniform buffer holding a 4×4 matrix at bind slot 0,
//! and the pipeline state tying them together. Here its state is
//! modeled on plain values: the creation data for the buffers — the
//! exact vertices, indices and initial uniform image — and the
//! per-frame recording of the render pass as a command list, proved to
//! issue exactly one indexed draw over the whole index range.

use crate::codec::le_bytes_of_words;
use crate::matrix::identity_words;
use crate::matrix::Mat4Words;
use crate::matrix::MAT4_BYTES;
use crate::util::Vertex;
use vstd::prelude::*;

verus! {

/// Bind-group slot the uniform buffer is bound to.
pub const UNIFORM_BIND_SLOT: u32 = 0;

/// Vertex-buffer slot the mesh's positions are bound to.
pub const VERTEX_BUFFER_SLOT: u32 = 0;

/// Number of indices the mesh draws.
pub const INDEX_COUNT: u32 = 3;

/// IEEE-754 bit pattern of the 32-bit float 0.5.
pub const FLOAT_HALF_BITS: u32 = 0x3F00_0000;

/// IEEE-754 bit pattern of the 32-bit float -0.5.
pub const FLOAT_NEG_HALF_BITS: u32 = 0xBF00_0000;

/// IEEE-754 bit pattern of the 32-bit float -2.0.
pub const FLOAT_NEG_TWO_BITS: u32 = 0xC000_0000;

/// The fixed mesh: three vertices at (-0.5, 0.5, -2), (0.5, 0.5, -2)
/// and (-0.5, -0.5, -2), each component an IEEE-754 bit pattern.
pub open spec fn triangle_vertices_spec() -> Seq<Vertex> {
    seq![
        Vertex { x_bits: FLOAT_NEG_HALF_BITS, y_bits: FLOAT_HALF_BITS, z_bits: FLOAT_NEG_TWO_BITS },
        Vertex { x_bits: FLOAT_HALF_BITS, y_bits: FLOAT_HALF_BITS, z_bits: FLOAT_NEG_TWO_BITS },
        Vertex {
            x_bits: FLOAT_NEG_HALF_BITS,
            y_bits: FLOAT_NEG_HALF_BITS,
            z_bits: FLOAT_NEG_TWO_BITS,
        },
    ]
}

/// The fixed index list: one triangle over the three vertices in order.
pub open spec fn triangle_indices_spec() -> Seq<u32> {
    seq![0u32, 1u32, 2u32]
}

/// Builds the vertex data the vertex buffer is created from.
pub fn triangle_vertices() -> (vs: Vec<Vertex>)
    ensures
        vs@ == triangle_vertices_spec(),
{
    let mut vs: Vec<Vertex> = Vec::new();
    vs.push(Vertex::new(FLOAT_NEG_HALF_BITS, FLOAT_HALF_BITS, FLOAT_NEG_TWO_BITS));
    vs.push(Vertex::new(FLOAT_HALF_BITS, FLOAT_HALF_BITS, FLOAT_NEG_TWO_BITS));
    vs.push(Vertex::new(FLOAT_NEG_HALF_BITS, FLOAT_NEG_HALF_BITS, FLOAT_NEG_TWO_BITS));
    proof {
        assert(vs@ =~= triangle_vertices_spec());
    }
    vs
}

/// Builds the index data the index buffer is created from.
pub fn triangle_indices() -> (is: Vec<u32>)
    ensures
        is@ == triangle_indices_spec(),
{
    let mut is: Vec<u32> = Vec::new();
    is.push(0);
    is.push(1);
    is.push(2);
    proof {
        assert(is@ =~= triangle_indices_spec());
    }
    is
}

/// Width of the entries in the index buffer.
#[derive(Clone, Copy, PartialEq, Eq, Structural, Debug)]
pub enum IndexFormat {
    Uint16,
    Uint32,
}

/// One command recorded into the render pass.
#[derive(Clone, Copy, PartialEq, Eq, Structural, Debug)]
pub enum PassCommand {
    /// Bind the pipeline state object.
    SetPipeline,
    /// Bind the uniform bind group at the given slot.
    SetBindGroup { slot: u32 },
    /// Bind the vertex buffer at the given slot.
    SetVertexBuffer { slot: u32 },
    /// Bind the index buffer with the given entry width.
    SetIndexBuffer { format: IndexFormat },
    /// Draw indices `[index_start, index_end)` for instances
    /// `[instance_start, instance_end)`, offsetting each index by
    /// `base_vertex`.
    DrawIndexed {
        index_start: u32,
        index_end: u32,
        base_vertex: i32,
        instance_start: u32,
        instance_end: u32,
    },
}

/// Whether a command draws anything, rather than only binding state.
pub open spec fn is_draw_command(c: PassCommand) -> bool {
    c matches PassCommand::DrawIndexed { .. }
}

/// How many commands of a recording draw.
pub open spec fn draw_count(cs: Seq<PassCommand>) -> nat
    decreases cs.len(),
{
    if cs.len() == 0 {
        0
    } else {
        draw_count(cs.drop_last()) + if is_draw_command(cs.last()) {
            1nat
        } else {
            0nat
        }
    }
}

/// What one frame records into the render pass: bind the pipeline, the
/// uniform bind group, the vertex and index buffers, then draw the
/// whole index range once.
pub open spec fn render_commands_spec() -> Seq<PassCommand> {
    seq![
        PassCommand::SetPipeline,
        PassCommand::SetBindGroup { slot: UNIFORM_BIND_SLOT },
        PassCommand::SetVertexBuffer { slot: VERTEX_BUFFER_SLOT },
        PassCommand::SetIndexBuffer { format: IndexFormat::Uint32 },
        PassCommand::DrawIndexed {
            index_start: 0,
            index_end: INDEX_COUNT,
            base_vertex: 0,
            instance_start: 0,
            instance_end: 1,
        },
    ]
}

/// Law: a frame's recording issues exactly one draw command — the
/// last command of the pass — and that draw is indexed, covers the
/// index range [0, 3) without a base-vertex offset, and draws the
/// single instance range [0, 1).
pub proof fn lemma_render_single_indexed_draw()
    ensures
        draw_count(render_commands_spec()) == 1,
        render_commands_spec().last() == (PassCommand::DrawIndexed {
            index_start: 0,
            index_end: 3,
            base_vertex: 0,
            instance_start: 0,
            instance_end: 1,
        }),
        forall|i: int|
            0 <= i < render_commands_spec().len() && is_draw_command(render_commands_spec()[i])
                ==> i == render_commands_spec().len() - 1,
{
    reveal_with_fuel(draw_count, 7);
    let cs = render_commands_spec();
    assert(cs.drop_last().drop_last().drop_last().drop_last().drop_last() =~= Seq::<
        PassCommand,
    >::empty());
    assert(draw_count(cs) == 1);
}

/// The geometry pipeline's mutable state: the matrix the uniform
/// buffer holds. The buffers and pipeline state object are immutable
/// after creation; their creation data stands above.
pub struct GeometryRenderer {
    uniform: Mat4Words,
}

impl GeometryRenderer {
    /// The renderer is well formed when its uniform matrix is.
    pub closed spec fn wf(&self) -> bool {
        self.uniform.wf()
    }

    /// The words of the matrix the uniform buffer currently holds.
    pub closed spec fn uniform_words(&self) -> Seq<u32> {
        self.uniform@
    }

    /// Creates the pipeline state: the uniform buffer starts as the
    /// identity matrix.
    pub fn new() -> (r: GeometryRenderer)
        ensures
            r.wf(),
            r.uniform_words() == identity_words(),
    {
        GeometryRenderer { uniform: Mat4Words::identity() }
    }

    /// Replaces the uniform matrix; the write is queued before any
    /// draw recorded afterwards reads it.
    pub fn update_uniform(&mut self, matrix: Mat4Words)
        requires
            matrix.wf(),
        ensures
            final(self).wf(),
            final(self).uniform_words() == matrix@,
    {
        self.uniform = matrix;
    }

    /// The matrix the uniform buffer holds.
    pub fn uniform_buffer(&self) -> (m: &Mat4Words)
        ensures
            m@ == self.uniform_words(),
    {
        &self.uniform
    }

    /// The byte image the uniform buffer stores: what the queued write
    /// uploads, and what a read-back copy returns.
    pub fn uniform_buffer_bytes(&self) -> (bytes: Vec<u8>)
        requires
            self.wf(),
        ensures
            bytes@ == le_bytes_of_words(self.uniform_words()),
            bytes@.len() == MAT4_BYTES,
    {
        self.uniform.to_le_bytes()
    }

    /// Records one frame's commands into the render pass.
    pub fn render(&self) -> (cmds: Vec<PassCommand>)
        ensures
            cmds@ == render_commands_spec(),
    {
        let mut cmds: Vec<PassCommand> = Vec::new();
        cmds.push(PassCommand::SetPipeline);
        cmds.push(PassCommand::SetBindGroup { slot: UNIFORM_BIND_SLOT });
        cmds.push(PassCommand::SetVertexBuffer { slot: VERTEX_BUFFER_SLOT });
        cmds.push(PassCommand::SetIndexBuffer { format: IndexFormat::Uint32 });
        cmds.push(
            PassCommand::DrawIndexed {
                index_start: 0,
                index_end: INDEX_COUNT,
                base_vertex: 0,
                instance_start: 0,
                instance_end: 1,
            },
        );
        proof {
            assert(cmds@ =~= render_commands_spec());
        }
        cmds
    }
}

} // verus!
