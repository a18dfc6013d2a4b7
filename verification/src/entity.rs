//! Batcher for entity sprites drawn in the geometry pass.
//!
//! Each frame `prepare` repacks the frame's entity instructions into a
//! GPU-ready instance array, resolving every texture handle to a slot in a
//! deduplicated texture array; `upload` copies the array to device memory;
//! the draw phase issues one instanced draw over six vertices per sprite.

use vstd::prelude::*;

use crate::buffer::{grown_capacity, DeviceBuffer};
use crate::capabilities::Capabilities;
use crate::command::GpuCommand;
use crate::dedup::{
    dedup_map, dedup_slots, finish_texture_slots, lemma_dedup_invariants, lookup_contents,
    padded_slots, TextureLookup,
};
use crate::instruction::{entity_handles, EntityInstanceData, EntityInstruction};

verus! {

/// Initial element capacity of the instance buffer.
pub const INITIAL_INSTRUCTION_SIZE: usize = 256;

/// The largest instruction count a frame may carry: slot indices are stored
/// as 32-bit signed integers for the shader.
pub const MAX_INSTRUCTION_COUNT: usize = 0x7FFF_FFFF;

/// The instance record packed for one entity instruction whose texture was
/// assigned `slot`.
pub open spec fn entity_record(instruction: EntityInstruction, slot: int) -> EntityInstanceData {
    EntityInstanceData {
        world: instruction.world,
        texture_position: instruction.texture_position,
        texture_size: instruction.texture_size,
        depth_offset: instruction.depth_offset,
        curvature: instruction.curvature,
        mirror: if instruction.mirror {
            1u32
        } else {
            0u32
        },
        texture_index: slot as i32,
    }
}

/// The commands the geometry entity pass submits: nothing for an empty
/// batch, else one instanced draw of the sprite quad under the batcher's
/// pipeline and bind group.
pub open spec fn entity_draw_commands(draw_count: int) -> Seq<GpuCommand> {
    if draw_count == 0 {
        Seq::empty()
    } else {
        seq![
            GpuCommand::SetPipeline { pipeline: 0 },
            GpuCommand::SetBindGroup { index: 1 },
            GpuCommand::Draw {
                first_vertex: 0,
                vertex_count: 6,
                first_instance: 0,
                instance_count: draw_count as u32,
            },
        ]
    }
}

/// Per-frame instance batcher of the geometry pass's entity sprites.
pub struct GeometryEntityDrawer {
    /// Handle of the solid-pixel fallback texture.
    pub solid_pixel_texture: u64,
    /// Capability flags of the device, fixed at construction.
    pub capabilities: Capabilities,
    /// Device buffer receiving the instance records.
    pub instance_data_buffer: DeviceBuffer,
    /// Number of instances the draw phase submits this frame.
    pub draw_count: usize,
    /// Packed instance records, rebuilt every frame.
    pub instance_data: Vec<EntityInstanceData>,
    /// This frame's texture array: one handle per assigned slot.
    pub texture_slots: Vec<u64>,
    /// Scratch table from texture handle to assigned slot.
    pub lookup: TextureLookup,
}

impl GeometryEntityDrawer {
    /// A fresh batcher with an empty batch and a texture array holding only
    /// the fallback texture (padded where the backend needs it).
    pub fn new(capabilities: Capabilities, solid_pixel_texture: u64) -> (r: GeometryEntityDrawer)
        ensures
            r.capabilities == capabilities,
            r.solid_pixel_texture == solid_pixel_texture,
            r.draw_count == 0,
            r.instance_data@.len() == 0,
            r.instance_data_buffer.capacity == INITIAL_INSTRUCTION_SIZE,
            r.texture_slots@ == padded_slots(Seq::empty(), solid_pixel_texture, capabilities),
    {
        let mut texture_slots: Vec<u64> = Vec::new();
        finish_texture_slots(&mut texture_slots, solid_pixel_texture, capabilities);
        GeometryEntityDrawer {
            solid_pixel_texture,
            capabilities,
            instance_data_buffer: DeviceBuffer::with_capacity(INITIAL_INSTRUCTION_SIZE),
            draw_count: 0,
            instance_data: Vec::new(),
            texture_slots: texture_slots,
            lookup: TextureLookup::new(),
        }
    }

    /// Repacks this frame's instructions into instance records and the
    /// deduplicated texture-slot array.
    ///
    /// With no instructions the batch is marked empty and everything else
    /// is left untouched.  Otherwise every instruction yields exactly one
    /// record carrying its attributes and the slot of its texture; the slot
    /// array holds the distinct handles in first-occurrence order, padded
    /// for the backend; and the instance buffer is grown to fit.
    #[verifier::loop_isolation(false)]
    pub fn prepare(&mut self, instructions: &Vec<EntityInstruction>)
        requires
            instructions@.len() <= MAX_INSTRUCTION_COUNT,
        ensures
            final(self).capabilities == old(self).capabilities,
            final(self).solid_pixel_texture == old(self).solid_pixel_texture,
            final(self).draw_count == instructions@.len(),
            instructions@.len() == 0 ==> final(self).instance_data == old(self).instance_data
                && final(self).texture_slots == old(self).texture_slots
                && final(self).instance_data_buffer == old(self).instance_data_buffer,
            instructions@.len() > 0 ==> {
                let hs = entity_handles(instructions@);
                &&& final(self).instance_data@.len() == instructions@.len()
                &&& forall|i: int|
                    0 <= i < instructions@.len() ==> final(self).instance_data@[i]
                        == entity_record(instructions@[i], dedup_map(hs)[hs[i]])
                &&& final(self).texture_slots@ == padded_slots(
                    dedup_slots(hs),
                    old(self).solid_pixel_texture,
                    old(self).capabilities,
                )
                &&& final(self).instance_data_buffer.capacity == (
                if instructions@.len() > old(self).instance_data_buffer.capacity {
                    grown_capacity(
                        old(self).instance_data_buffer.capacity as int,
                        instructions@.len() as int,
                    )
                } else {
                    old(self).instance_data_buffer.capacity as int
                })
                &&& final(self).instance_data_buffer.capacity >= instructions@.len()
            },
    {
        self.draw_count = instructions.len();

        if self.draw_count == 0 {
            return ;
        }

        self.instance_data.clear();
        self.lookup.clear();
        self.texture_slots.clear();

        let ghost hs = entity_handles(instructions@);
        let mut index: usize = 0;
        while index < instructions.len()
            invariant
                index <= instructions@.len(),
                self.capabilities == old(self).capabilities,
                self.solid_pixel_texture == old(self).solid_pixel_texture,
                self.instance_data_buffer == old(self).instance_data_buffer,
                self.draw_count == instructions@.len(),
                self.texture_slots@ == dedup_slots(hs.take(index as int)),
                self.instance_data@.len() == index,
                forall|k: int|
                    0 <= k < index ==> self.instance_data@[k] == entity_record(
                        instructions@[k],
                        dedup_map(hs.take(index as int))[hs[k]],
                    ),
                forall|h: u64| #[trigger]
                    lookup_contents(self.lookup).dom().contains(h) ==> dedup_map(
                        hs.take(index as int),
                    ).dom().contains(h),
                forall|h: u64| #[trigger]
                    dedup_map(hs.take(index as int)).dom().contains(h) ==> lookup_contents(
                        self.lookup,
                    ).dom().contains(h) && lookup_contents(self.lookup)[h] as int == dedup_map(
                        hs.take(index as int),
                    )[h],
            decreases instructions@.len() - index,
        {
            let ghost pref = hs.take(index as int);
            let ghost prefx = hs.take(index as int + 1);
            proof {
                assert(prefx.drop_last() =~= pref);
                assert(prefx.last() == hs[index as int]);
                assert(hs[index as int] == instructions@[index as int].texture);
                lemma_dedup_invariants(pref);
            }

            let instruction = &instructions[index];
            let slot_count = self.texture_slots.len();
            let mut texture_index: i32 = slot_count as i32;

            match self.lookup.get(instruction.texture) {
                Some(existing) => {
                    texture_index = existing;
                },
                Option::None => {
                    self.lookup.insert(instruction.texture, texture_index);
                    self.texture_slots.push(instruction.texture);
                },
            }

            proof {
                let h = hs[index as int];
                assert forall|k: int| 0 <= k < index implies dedup_map(prefx).dom().contains(
                    hs[k],
                ) && dedup_map(prefx)[hs[k]] == dedup_map(pref)[hs[k]] by {
                    assert(pref[k] == hs[k]);
                    assert(pref.contains(hs[k]));
                    assert(dedup_slots(pref).contains(hs[k]));
                    assert(dedup_map(pref).dom().contains(hs[k]));
                }
                if dedup_map(pref).dom().contains(h) {
                    assert(dedup_map(prefx) == dedup_map(pref));
                    assert(dedup_slots(prefx) == dedup_slots(pref));
                } else {
                    assert(dedup_map(prefx) == dedup_map(pref).insert(
                        h,
                        dedup_slots(pref).len() as int,
                    ));
                    assert(dedup_slots(prefx) == dedup_slots(pref).push(h));
                }
                assert(texture_index as int == dedup_map(prefx)[h]);
            }

            self.instance_data.push(
                EntityInstanceData {
                    world: instruction.world,
                    texture_position: instruction.texture_position,
                    texture_size: instruction.texture_size,
                    depth_offset: instruction.depth_offset,
                    curvature: instruction.curvature,
                    mirror: if instruction.mirror {
                        1u32
                    } else {
                        0u32
                    },
                    texture_index,
                },
            );

            index = index + 1;
        }

        proof {
            assert(hs.take(instructions@.len() as int) =~= hs);
        }

        finish_texture_slots(&mut self.texture_slots, self.solid_pixel_texture, self.capabilities);
        self.instance_data_buffer.reserve(self.instance_data.len());
    }

    /// Copies the packed instance records to device memory.  Returns
    /// whether the device buffer had to be reallocated (it never has to
    /// when `prepare` ran this frame, which already grew it).
    pub fn upload(&mut self) -> (reallocated: bool)
        ensures
            reallocated == (old(self).instance_data@.len() > old(
                self,
            ).instance_data_buffer.capacity),
            final(self).instance_data_buffer.capacity >= old(self).instance_data@.len(),
            final(self).capabilities == old(self).capabilities,
            final(self).solid_pixel_texture == old(self).solid_pixel_texture,
            final(self).draw_count == old(self).draw_count,
            final(self).instance_data == old(self).instance_data,
            final(self).texture_slots == old(self).texture_slots,
    {
        self.instance_data_buffer.write(self.instance_data.len())
    }

    /// The commands this batcher submits to the render pass: none for an
    /// empty batch, else one instanced draw of the sprite quad.
    pub fn draw_commands(&self) -> (commands: Vec<GpuCommand>)
        requires
            self.draw_count <= MAX_INSTRUCTION_COUNT,
        ensures
            commands@ == entity_draw_commands(self.draw_count as int),
            self.draw_count == 0 ==> commands@.len() == 0,
    {
        let mut commands: Vec<GpuCommand> = Vec::new();

        if self.draw_count == 0 {
            return commands;
        }

        commands.push(GpuCommand::SetPipeline { pipeline: 0 });
        commands.push(GpuCommand::SetBindGroup { index: 1 });
        commands.push(
            GpuCommand::Draw {
                first_vertex: 0,
                vertex_count: 6,
                first_instance: 0,
                instance_count: self.draw_count as u32,
            },
        );
        proof {
            assert(commands@ =~= entity_draw_commands(self.draw_count as int));
        }
        commands
    }
}

/// For a frame of instructions over some set of distinct texture handles,
/// the deduplicated slot array holds exactly those handles, each once, and
/// every instruction's assigned slot lies within the array.
pub proof fn lemma_slot_array_exact(instructions: Seq<EntityInstruction>)
    ensures
        dedup_slots(entity_handles(instructions)).no_duplicates(),
        dedup_slots(entity_handles(instructions)).len() <= instructions.len(),
        instructions.len() > 0 ==> dedup_slots(entity_handles(instructions)).len() > 0,
        forall|h: u64| #[trigger] dedup_slots(entity_handles(instructions)).contains(h)
            <==> entity_handles(instructions).contains(h),
        forall|i: int|
            0 <= i < instructions.len() ==> 0 <= dedup_map(entity_handles(instructions))[#[trigger] entity_handles(instructions)[i]]
                < dedup_slots(entity_handles(instructions)).len(),
{
    let hs = entity_handles(instructions);
    lemma_dedup_invariants(hs);
    if instructions.len() > 0 {
        assert(hs.contains(hs[0]));
        assert(dedup_slots(hs).contains(hs[0]));
    }
    assert forall|i: int| 0 <= i < instructions.len() implies 0 <= dedup_map(
        entity_handles(instructions),
    )[#[trigger] entity_handles(instructions)[i]] < dedup_slots(entity_handles(instructions)).len() by {
        assert(hs.contains(hs[i]));
        assert(dedup_slots(hs).contains(hs[i]));
        assert(dedup_map(hs).dom().contains(hs[i]));
    }
}

/// Texture handle reuse: two instructions carrying the same texture handle
/// are packed with the same texture-slot index.
pub proof fn lemma_texture_slot_reuse(instructions: Seq<EntityInstruction>, i: int, j: int)
    requires
        0 <= i < instructions.len(),
        0 <= j < instructions.len(),
        instructions[i].texture == instructions[j].texture,
    ensures
        ({
            let hs = entity_handles(instructions);
            entity_record(instructions[i], dedup_map(hs)[hs[i]]).texture_index == entity_record(
                instructions[j],
                dedup_map(hs)[hs[j]],
            ).texture_index
        }),
{
    let hs = entity_handles(instructions);
    assert(hs[i] == instructions[i].texture);
    assert(hs[j] == instructions[j].texture);
}

} // verus!
