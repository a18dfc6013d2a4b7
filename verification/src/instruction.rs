//! Render instructions and the GPU-facing instance records built from them.
//!
//! An instruction is one visible object-draw, produced by the culling layer
//! once per frame.  Scalar shader attributes (world transform, UV rectangle,
//! depth offset, curvature) are carried as the 32-bit patterns the GPU
//! consumes; the batchers copy them through untouched, so nothing here
//! interprets them.  Texture references are stable integer handles: two
//! instructions drawing the same texture carry the same handle.

use vstd::prelude::*;

verus! {

/// One entity sprite to draw this frame.
#[derive(Clone, Copy, PartialEq, Eq, Debug)]
pub struct EntityInstruction {
    /// World transform, column major, as 32-bit patterns.
    pub world: [[u32; 4]; 4],
    /// Top-left corner of the UV sub-rectangle.
    pub texture_position: [u32; 2],
    /// Size of the UV sub-rectangle.
    pub texture_size: [u32; 2],
    /// Pseudo-depth correction for distant billboards.
    pub depth_offset: u32,
    /// Ground-curvature factor of the sprite.
    pub curvature: u32,
    /// Whether the sprite is drawn mirrored.
    pub mirror: bool,
    /// Stable identity of the sprite's texture.
    pub texture: u64,
    /// Identity of the entity, written into the picking buffer.
    pub entity_id: u64,
}

/// Packed per-entity record consumed by the geometry shader.
#[derive(Clone, Copy, PartialEq, Eq, Debug)]
pub struct EntityInstanceData {
    pub world: [[u32; 4]; 4],
    pub texture_position: [u32; 2],
    pub texture_size: [u32; 2],
    pub depth_offset: u32,
    pub curvature: u32,
    /// Mirror flag widened to the unit the shader reads.
    pub mirror: u32,
    /// Slot of the entity's texture in this frame's texture array.
    pub texture_index: i32,
}

/// Packed per-entity record consumed by the picking shader.
#[derive(Clone, Copy, PartialEq, Eq, Debug)]
pub struct PickerInstanceData {
    pub world: [[u32; 4]; 4],
    pub texture_position: [u32; 2],
    pub texture_size: [u32; 2],
    /// Slot of the entity's texture in this frame's texture array.
    pub texture_index: i32,
    /// Mirror flag widened to the unit the shader reads.
    pub mirror: u32,
    /// Upper half of the entity's picking identifier.
    pub identifier_high: u32,
    /// Lower half of the entity's picking identifier.
    pub identifier_low: u32,
}

/// One model to render into a point-light shadow map this frame.
#[derive(Clone, Copy, PartialEq, Eq, Debug)]
pub struct ModelInstruction {
    /// World transform, column major, as 32-bit patterns.
    pub model_matrix: [[u32; 4]; 4],
    /// Number of indices of the model's mesh.
    pub index_count: u32,
    /// First index of the mesh within the batch's index buffer.
    pub index_offset: u32,
    /// Value added to every index of the mesh.
    pub base_vertex: i32,
    /// Slot of the model's texture in the batch's texture set.
    pub texture_index: i32,
}

/// Packed per-model record consumed by the shadow shader.
#[derive(Clone, Copy, PartialEq, Eq, Debug)]
pub struct ModelInstanceData {
    pub world: [[u32; 4]; 4],
}

/// One debug bounding box to draw this frame.
#[derive(Clone, Copy, PartialEq, Eq, Debug)]
pub struct AabbInstruction {
    /// World transform, column major, as 32-bit patterns.
    pub world: [[u32; 4]; 4],
    /// Line color, as 32-bit patterns.
    pub color: [u32; 4],
}

/// Packed per-box record consumed by the line shader.
#[derive(Clone, Copy, PartialEq, Eq, Debug)]
pub struct AabbInstanceData {
    pub world: [[u32; 4]; 4],
    pub color: [u32; 4],
}

/// The texture handle of each entity instruction, in order.
pub open spec fn entity_handles(instructions: Seq<EntityInstruction>) -> Seq<u64> {
    instructions.map_values(|instruction: EntityInstruction| instruction.texture)
}

} // verus!
