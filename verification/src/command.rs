//! Plain descriptions of the device commands a draw phase issues.
//!
//! A batcher's draw phase decides *what* to submit; the device layer outside
//! this crate walks the returned command list and performs each step against
//! the real graphics API.  Modelling the commands as data lets the decision
//! logic be verified: which pipeline is bound, which ranges are drawn, and
//! that an empty batch issues nothing.

use vstd::prelude::*;

verus! {

/// Arguments of one indexed draw, in the layout an indirect command buffer
/// stores them.
#[derive(Clone, Copy, PartialEq, Eq, Structural, Debug)]
pub struct DrawIndexedIndirectArgs {
    /// Number of indices consumed by the draw.
    pub index_count: u32,
    /// Number of instances drawn.
    pub instance_count: u32,
    /// First index within the bound index buffer.
    pub first_index: u32,
    /// Value added to every index before vertex lookup.
    pub base_vertex: i32,
    /// First instance id.
    pub first_instance: u32,
}

/// One step of a render pass, in submission order.
#[derive(Clone, Copy, PartialEq, Eq, Structural, Debug)]
pub enum GpuCommand {
    /// Bind the pipeline with the given slot in the owning context.
    SetPipeline { pipeline: usize },
    /// Bind the batcher's bind group at the given index.
    SetBindGroup { index: u32 },
    /// Bind one texture bind group (non-bindless fallback) at the given
    /// index, identified by its slot in the batch's texture set.
    SetTextureBindGroup { index: u32, texture: i32 },
    /// Bind the batch's index buffer.
    SetIndexBuffer,
    /// Bind a vertex buffer at the given slot.
    SetVertexBuffer { slot: u32 },
    /// Draw a vertex range over an instance range.
    Draw {
        first_vertex: u32,
        vertex_count: u32,
        first_instance: u32,
        instance_count: u32,
    },
    /// Draw an index range over an instance range.
    DrawIndexed {
        first_index: u32,
        index_count: u32,
        base_vertex: i32,
        first_instance: u32,
        instance_count: u32,
    },
    /// Issue `count` indexed draws from the command buffer, starting at the
    /// given element offset.
    MultiDrawIndexedIndirect { offset: usize, count: u32 },
}

} // verus!
