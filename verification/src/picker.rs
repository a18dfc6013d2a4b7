//! Batcher for entity sprites rendered into the picking buffer.
//!
//! Identical to the geometry entity batcher except for two points: the
//! first instruction of the frame is always skipped — it is the locally
//! controlled player entity, which must never be selectable — and each
//! record carries the entity's picking identifier split into two 32-bit
//! halves for the shader.

use vstd::prelude::*;

use crate::buffer::{grown_capacity, DeviceBuffer};
use crate::capabilities::Capabilities;
use crate::command::GpuCommand;
use crate::dedup::{
    dedup_map, dedup_slots, finish_texture_slots, lemma_dedup_invariants, lookup_contents,
    padded_slots, TextureLookup,
};
use crate::instruction::{entity_handles, EntityInstruction, PickerInstanceData};

verus! {

/// Initial element capacity of the instance buffer.
pub const INITIAL_INSTRUCTION_SIZE: usize = 128;

/// The largest instruction count a frame may carry: slot indices are stored
/// as 32-bit signed integers for the shader.
pub const MAX_INSTRUCTION_COUNT: usize = 0x7FFF_FFFF;

/// The instance record packed for one picked entity whose texture was
/// assigned `slot`: its attributes, plus the 64-bit picking identifier
/// split into the two words the picking buffer stores.
pub open spec fn picker_record(instruction: EntityInstruction, slot: int) -> PickerInstanceData {
    PickerInstanceData {
        world: instruction.world,
        texture_position: instruction.texture_position,
        texture_size: instruction.texture_size,
        texture_index: slot as i32,
        mirror: if instruction.mirror {
            1u32
        } else {
            0u32
        },
        identifier_high: (instruction.entity_id >> 32u64) as u32,
        identifier_low: (instruction.entity_id & 0xFFFF_FFFFu64) as u32,
    }
}

/// The commands the picking pass submits: nothing for an empty batch, else
/// one instanced draw of the sprite quad.
pub open spec fn picker_draw_commands(draw_count: int) -> Seq<GpuCommand> {
    if draw_count == 0 {
        Seq::empty()
    } else {
        seq![
            GpuCommand::SetPipeline { pipeline: 0 },
            GpuCommand::SetBindGroup { index: 1 },
            GpuCommand::Draw {
                first_vertex: 0,
                vertex_count: 6,
                first_instance: 0,
                instance_count: draw_count as u32,
            },
        ]
    }
}

/// Per-frame instance batcher of the picking pass's entity sprites.
pub struct PickerEntityDrawer {
    /// Handle of the solid-pixel fallback texture.
    pub solid_pixel_texture: u64,
    /// Capability flags of the device, fixed at construction.
    pub capabilities: Capabilities,
    /// Device buffer receiving the instance records.
    pub instance_data_buffer: DeviceBuffer,
    /// Number of instances the draw phase submits this frame.
    pub draw_count: usize,
    /// Packed instance records, rebuilt every frame.
    pub instance_data: Vec<PickerInstanceData>,
    /// This frame's texture array: one handle per assigned slot.
    pub texture_slots: Vec<u64>,
    /// Scratch table from texture handle to assigned slot.
    pub lookup: TextureLookup,
}

impl PickerEntityDrawer {
    /// A fresh batcher with an empty batch and a texture array holding only
    /// the fallback texture (padded where the backend needs it).
    pub fn new(capabilities: Capabilities, solid_pixel_texture: u64) -> (r: PickerEntityDrawer)
        ensures
            r.capabilities == capabilities,
            r.solid_pixel_texture == solid_pixel_texture,
            r.draw_count == 0,
            r.instance_data@.len() == 0,
            r.instance_data_buffer.capacity == INITIAL_INSTRUCTION_SIZE,
            r.texture_slots@ == padded_slots(Seq::empty(), solid_pixel_texture, capabilities),
    {
        let mut texture_slots: Vec<u64> = Vec::new();
        finish_texture_slots(&mut texture_slots, solid_pixel_texture, capabilities);
        PickerEntityDrawer {
            solid_pixel_texture,
            capabilities,
            instance_data_buffer: DeviceBuffer::with_capacity(INITIAL_INSTRUCTION_SIZE),
            draw_count: 0,
            instance_data: Vec::new(),
            texture_slots: texture_slots,
            lookup: TextureLookup::new(),
        }
    }

    /// Repacks this frame's instructions, leaving out instruction 0.
    ///
    /// Of `N >= 1` instructions exactly `N - 1` are packed and drawn — the
    /// first belongs to the player entity and is deliberately excluded from
    /// picking — so a frame of one instruction packs nothing.  The records
    /// and the texture-slot array are built over the remaining instructions
    /// exactly as in the geometry pass, with the picking identifier of each
    /// entity split into its two words.
    #[verifier::loop_isolation(false)]
    pub fn prepare(&mut self, instructions: &Vec<EntityInstruction>)
        requires
            instructions@.len() <= MAX_INSTRUCTION_COUNT,
        ensures
            final(self).capabilities == old(self).capabilities,
            final(self).solid_pixel_texture == old(self).solid_pixel_texture,
            final(self).draw_count == if instructions@.len() == 0 {
                0int
            } else {
                instructions@.len() - 1
            },
            instructions@.len() <= 1 ==> final(self).instance_data == old(self).instance_data
                && final(self).texture_slots == old(self).texture_slots
                && final(self).instance_data_buffer == old(self).instance_data_buffer,
            instructions@.len() > 1 ==> {
                let rest = instructions@.skip(1);
                let hs = entity_handles(rest);
                &&& final(self).instance_data@.len() == rest.len()
                &&& forall|i: int|
                    0 <= i < rest.len() ==> final(self).instance_data@[i] == picker_record(
                        rest[i],
                        dedup_map(hs)[hs[i]],
                    )
                &&& final(self).texture_slots@ == padded_slots(
                    dedup_slots(hs),
                    old(self).solid_pixel_texture,
                    old(self).capabilities,
                )
                &&& final(self).instance_data_buffer.capacity == (
                if rest.len() > old(self).instance_data_buffer.capacity {
                    grown_capacity(
                        old(self).instance_data_buffer.capacity as int,
                        rest.len() as int,
                    )
                } else {
                    old(self).instance_data_buffer.capacity as int
                })
                &&& final(self).instance_data_buffer.capacity >= rest.len()
            },
    {
        self.draw_count = if instructions.len() == 0 {
            0
        } else {
            instructions.len() - 1
        };

        if self.draw_count == 0 {
            return ;
        }

        self.instance_data.clear();
        self.lookup.clear();
        self.texture_slots.clear();

        let ghost rest = instructions@.skip(1);
        let ghost hs = entity_handles(rest);
        let mut index: usize = 1;
        while index < instructions.len()
            invariant
                1 <= index <= instructions@.len(),
                self.capabilities == old(self).capabilities,
                self.solid_pixel_texture == old(self).solid_pixel_texture,
                self.instance_data_buffer == old(self).instance_data_buffer,
                self.draw_count == instructions@.len() - 1,
                self.texture_slots@ == dedup_slots(hs.take(index - 1)),
                self.instance_data@.len() == index - 1,
                forall|k: int|
                    0 <= k < index - 1 ==> self.instance_data@[k] == picker_record(
                        rest[k],
                        dedup_map(hs.take(index - 1))[hs[k]],
                    ),
                forall|h: u64| #[trigger]
                    lookup_contents(self.lookup).dom().contains(h) ==> dedup_map(
                        hs.take(index - 1),
                    ).dom().contains(h),
                forall|h: u64| #[trigger]
                    dedup_map(hs.take(index - 1)).dom().contains(h) ==> lookup_contents(
                        self.lookup,
                    ).dom().contains(h) && lookup_contents(self.lookup)[h] as int == dedup_map(
                        hs.take(index - 1),
                    )[h],
            decreases instructions@.len() - index,
        {
            let ghost k = index as int - 1;
            let ghost pref = hs.take(k);
            let ghost prefx = hs.take(k + 1);
            proof {
                assert(prefx.drop_last() =~= pref);
                assert(rest[k] == instructions@[index as int]);
                assert(prefx.last() == hs[k]);
                assert(hs[k] == rest[k].texture);
                lemma_dedup_invariants(pref);
            }

            let instruction = &instructions[index];
            let slot_count = self.texture_slots.len();
            let mut texture_index: i32 = slot_count as i32;

            match self.lookup.get(instruction.texture) {
                Some(existing) => {
                    texture_index = existing;
                },
                Option::None => {
                    self.lookup.insert(instruction.texture, texture_index);
                    self.texture_slots.push(instruction.texture);
                },
            }

            proof {
                let h = hs[k];
                assert forall|m: int| 0 <= m < k implies dedup_map(prefx).dom().contains(hs[m])
                    && dedup_map(prefx)[hs[m]] == dedup_map(pref)[hs[m]] by {
                    assert(pref[m] == hs[m]);
                    assert(pref.contains(hs[m]));
                    assert(dedup_slots(pref).contains(hs[m]));
                    assert(dedup_map(pref).dom().contains(hs[m]));
                }
                if dedup_map(pref).dom().contains(h) {
                    assert(dedup_map(prefx) == dedup_map(pref));
                    assert(dedup_slots(prefx) == dedup_slots(pref));
                } else {
                    assert(dedup_map(prefx) == dedup_map(pref).insert(
                        h,
                        dedup_slots(pref).len() as int,
                    ));
                    assert(dedup_slots(prefx) == dedup_slots(pref).push(h));
                }
                assert(texture_index as int == dedup_map(prefx)[h]);
            }

            let identifier_high: u32 = (instruction.entity_id >> 32u64) as u32;
            let identifier_low: u32 = (instruction.entity_id & 0xFFFF_FFFFu64) as u32;
            proof {
                let eid = instruction.entity_id;
                assert(eid >> 32u64 <= 0xFFFF_FFFFu64) by (bit_vector);
                assert(eid & 0xFFFF_FFFFu64 <= 0xFFFF_FFFFu64) by (bit_vector);
            }

            self.instance_data.push(
                PickerInstanceData {
                    world: instruction.world,
                    texture_position: instruction.texture_position,
                    texture_size: instruction.texture_size,
                    texture_index,
                    mirror: if instruction.mirror {
                        1u32
                    } else {
                        0u32
                    },
                    identifier_high,
                    identifier_low,
                },
            );

            index = index + 1;
        }

        proof {
            assert(hs.take(instructions@.len() - 1) =~= hs);
        }

        finish_texture_slots(&mut self.texture_slots, self.solid_pixel_texture, self.capabilities);
        self.instance_data_buffer.reserve(self.instance_data.len());
    }

    /// Copies the packed instance records to device memory.  Returns
    /// whether the device buffer had to be reallocated (it never has to
    /// when `prepare` ran this frame, which already grew it).
    pub fn upload(&mut self) -> (reallocated: bool)
        ensures
            reallocated == (old(self).instance_data@.len() > old(
                self,
            ).instance_data_buffer.capacity),
            final(self).instance_data_buffer.capacity >= old(self).instance_data@.len(),
            final(self).capabilities == old(self).capabilities,
            final(self).solid_pixel_texture == old(self).solid_pixel_texture,
            final(self).draw_count == old(self).draw_count,
            final(self).instance_data == old(self).instance_data,
            final(self).texture_slots == old(self).texture_slots,
    {
        self.instance_data_buffer.write(self.instance_data.len())
    }

    /// The commands this batcher submits to the render pass: none for an
    /// empty batch, else one instanced draw of the sprite quad.
    pub fn draw_commands(&self) -> (commands: Vec<GpuCommand>)
        requires
            self.draw_count <= MAX_INSTRUCTION_COUNT,
        ensures
            commands@ == picker_draw_commands(self.draw_count as int),
            self.draw_count == 0 ==> commands@.len() == 0,
    {
        let mut commands: Vec<GpuCommand> = Vec::new();

        if self.draw_count == 0 {
            return commands;
        }

        commands.push(GpuCommand::SetPipeline { pipeline: 0 });
        commands.push(GpuCommand::SetBindGroup { index: 1 });
        commands.push(
            GpuCommand::Draw {
                first_vertex: 0,
                vertex_count: 6,
                first_instance: 0,
                instance_count: self.draw_count as u32,
            },
        );
        proof {
            assert(commands@ =~= picker_draw_commands(self.draw_count as int));
        }
        commands
    }
}

} // verus!
