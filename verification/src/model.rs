//! Batcher for models rendered into point-light shadow maps.
//!
//! `prepare` packs one record, one instance index and one indirect draw
//! command per model.  The draw phase renders one cube-map face of one
//! shadow caster: where the device supports multi-draw-indirect a single
//! command consumes the face's slice of the command buffer, else one draw
//! is issued per model — and without bindless texture support each model's
//! texture is bound individually before its draw.

use vstd::prelude::*;

use crate::buffer::{grown_capacity, DeviceBuffer};
use crate::capabilities::{BindlessSupport, Capabilities};
use crate::command::{DrawIndexedIndirectArgs, GpuCommand};
use crate::instruction::{ModelInstanceData, ModelInstruction};

verus! {

/// Initial element capacity of the device buffers.
pub const INITIAL_INSTRUCTION_SIZE: usize = 256;

/// The largest instruction count a frame may carry: instance ids are 32-bit.
pub const MAX_INSTRUCTION_COUNT: usize = 0xFFFF_FFFF;

/// Number of faces of a point-light shadow cube map.
pub const CUBE_FACE_COUNT: usize = 6;

/// The indirect draw command packed for the model at position `instance`.
pub open spec fn model_draw_command(
    instruction: ModelInstruction,
    instance: int,
) -> DrawIndexedIndirectArgs {
    DrawIndexedIndirectArgs {
        index_count: instruction.index_count,
        instance_count: 1,
        first_index: instruction.index_offset,
        base_vertex: instruction.base_vertex,
        first_instance: instance as u32,
    }
}

/// One direct indexed draw of the model at position `instance`.
pub open spec fn model_indexed_draw(instruction: ModelInstruction, instance: int) -> GpuCommand {
    GpuCommand::DrawIndexed {
        first_index: instruction.index_offset,
        index_count: instruction.index_count,
        base_vertex: instruction.base_vertex,
        first_instance: instance as u32,
        instance_count: 1,
    }
}

/// Setup commands of a face draw when the batch's texture set is bound as
/// one array.
pub open spec fn bindless_setup() -> Seq<GpuCommand> {
    seq![
        GpuCommand::SetPipeline { pipeline: 0 },
        GpuCommand::SetBindGroup { index: 2 },
        GpuCommand::SetBindGroup { index: 3 },
        GpuCommand::SetIndexBuffer,
        GpuCommand::SetVertexBuffer { slot: 0 },
        GpuCommand::SetVertexBuffer { slot: 1 },
    ]
}

/// Setup commands of a face draw when every texture is bound individually.
pub open spec fn individual_setup() -> Seq<GpuCommand> {
    seq![
        GpuCommand::SetPipeline { pipeline: 0 },
        GpuCommand::SetBindGroup { index: 2 },
        GpuCommand::SetIndexBuffer,
        GpuCommand::SetVertexBuffer { slot: 0 },
        GpuCommand::SetVertexBuffer { slot: 1 },
    ]
}

/// One direct draw per model of the face's slice, in order.
pub open spec fn indexed_draws(
    instructions: Seq<ModelInstruction>,
    offset: int,
    count: int,
) -> Seq<GpuCommand>
    decreases count,
{
    if count <= 0 {
        Seq::empty()
    } else {
        indexed_draws(instructions, offset, count - 1).push(
            model_indexed_draw(instructions[offset + count - 1], offset + count - 1),
        )
    }
}

/// Texture binding followed by a direct draw, per model of the face's
/// slice, in order.
pub open spec fn individually_textured_draws(
    instructions: Seq<ModelInstruction>,
    offset: int,
    count: int,
) -> Seq<GpuCommand>
    decreases count,
{
    if count <= 0 {
        Seq::empty()
    } else {
        individually_textured_draws(instructions, offset, count - 1).push(
            GpuCommand::SetTextureBindGroup {
                index: 3,
                texture: instructions[offset + count - 1].texture_index,
            },
        ).push(model_indexed_draw(instructions[offset + count - 1], offset + count - 1))
    }
}

/// Every command a face draw submits: nothing for an empty face; else the
/// setup for the device's binding mode followed by one indirect span, one
/// draw per model, or one texture binding and draw per model.
pub open spec fn model_face_commands(
    caps: Capabilities,
    offset: int,
    count: int,
    instructions: Seq<ModelInstruction>,
) -> Seq<GpuCommand> {
    if count == 0 {
        Seq::empty()
    } else {
        match caps.bindless {
            BindlessSupport::Full | BindlessSupport::Limited => {
                if caps.multidraw_indirect {
                    bindless_setup().push(
                        GpuCommand::MultiDrawIndexedIndirect {
                            offset: offset as usize,
                            count: count as u32,
                        },
                    )
                } else {
                    bindless_setup() + indexed_draws(instructions, offset, count)
                }
            },
            BindlessSupport::Individual => {
                individual_setup() + individually_textured_draws(instructions, offset, count)
            },
        }
    }
}

/// One shadow caster's models, already grouped per cube-map face: face `f`
/// draws `model_count[f]` consecutive instructions starting at
/// `model_offset[f]`.
#[derive(Clone, Copy, PartialEq, Eq, Debug)]
pub struct PointShadowBatch {
    pub model_offset: [usize; 6],
    pub model_count: [usize; 6],
}

/// Per-frame instance batcher of the point-light shadow pass's models.
pub struct PointShadowModelDrawer {
    /// Capability flags of the device, fixed at construction.
    pub capabilities: Capabilities,
    /// Device buffer receiving the instance records.
    pub instance_data_buffer: DeviceBuffer,
    /// Device buffer receiving the per-instance vertex-stream indices.
    pub instance_index_vertex_buffer: DeviceBuffer,
    /// Device buffer receiving the indirect draw commands.
    pub command_buffer: DeviceBuffer,
    /// Packed instance records, rebuilt every frame.
    pub instance_data: Vec<ModelInstanceData>,
    /// Instance index of each record, consumed as a vertex stream.
    pub instance_indices: Vec<u32>,
    /// Indirect draw commands, one per record.
    pub draw_commands: Vec<DrawIndexedIndirectArgs>,
}

impl PointShadowModelDrawer {
    /// A fresh batcher with an empty batch.
    pub fn new(capabilities: Capabilities) -> (r: PointShadowModelDrawer)
        ensures
            r.capabilities == capabilities,
            r.instance_data@.len() == 0,
            r.instance_indices@.len() == 0,
            r.draw_commands@.len() == 0,
            r.instance_data_buffer.capacity == INITIAL_INSTRUCTION_SIZE,
            r.instance_index_vertex_buffer.capacity == INITIAL_INSTRUCTION_SIZE,
            r.command_buffer.capacity == INITIAL_INSTRUCTION_SIZE,
    {
        PointShadowModelDrawer {
            capabilities,
            instance_data_buffer: DeviceBuffer::with_capacity(INITIAL_INSTRUCTION_SIZE),
            instance_index_vertex_buffer: DeviceBuffer::with_capacity(INITIAL_INSTRUCTION_SIZE),
            command_buffer: DeviceBuffer::with_capacity(INITIAL_INSTRUCTION_SIZE),
            instance_data: Vec::new(),
            instance_indices: Vec::new(),
            draw_commands: Vec::new(),
        }
    }

    /// Packs one record, one instance index and one indirect draw command
    /// per model instruction, in order.  With no instructions everything is
    /// left untouched.
    #[verifier::loop_isolation(false)]
    pub fn prepare(&mut self, instructions: &Vec<ModelInstruction>)
        requires
            instructions@.len() <= MAX_INSTRUCTION_COUNT,
        ensures
            final(self).capabilities == old(self).capabilities,
            final(self).instance_data_buffer == old(self).instance_data_buffer,
            final(self).instance_index_vertex_buffer == old(self).instance_index_vertex_buffer,
            final(self).command_buffer == old(self).command_buffer,
            instructions@.len() == 0 ==> final(self).instance_data == old(self).instance_data
                && final(self).instance_indices == old(self).instance_indices
                && final(self).draw_commands == old(self).draw_commands,
            instructions@.len() > 0 ==> {
                &&& final(self).instance_data@.len() == instructions@.len()
                &&& final(self).instance_indices@.len() == instructions@.len()
                &&& final(self).draw_commands@.len() == instructions@.len()
                &&& forall|i: int|
                    0 <= i < instructions@.len() ==> final(self).instance_data@[i]
                        == (ModelInstanceData { world: instructions@[i].model_matrix })
                &&& forall|i: int|
                    0 <= i < instructions@.len() ==> final(self).instance_indices@[i] == i as u32
                &&& forall|i: int|
                    0 <= i < instructions@.len() ==> final(self).draw_commands@[i]
                        == model_draw_command(instructions@[i], i)
            },
    {
        let draw_count = instructions.len();

        if draw_count == 0 {
            return ;
        }

        self.instance_data.clear();
        self.instance_indices.clear();
        self.draw_commands.clear();

        let mut index: usize = 0;
        while index < instructions.len()
            invariant
                index <= instructions@.len(),
                self.capabilities == old(self).capabilities,
                self.instance_data_buffer == old(self).instance_data_buffer,
                self.instance_index_vertex_buffer == old(self).instance_index_vertex_buffer,
                self.command_buffer == old(self).command_buffer,
                self.instance_data@.len() == index,
                self.instance_indices@.len() == index,
                self.draw_commands@.len() == index,
                forall|i: int|
                    0 <= i < index ==> self.instance_data@[i] == (ModelInstanceData {
                        world: instructions@[i].model_matrix,
                    }),
                forall|i: int| 0 <= i < index ==> self.instance_indices@[i] == i as u32,
                forall|i: int|
                    0 <= i < index ==> self.draw_commands@[i] == model_draw_command(
                        instructions@[i],
                        i,
                    ),
            decreases instructions@.len() - index,
        {
            let instruction = &instructions[index];

            self.instance_data.push(ModelInstanceData { world: instruction.model_matrix });
            self.instance_indices.push(index as u32);
            self.draw_commands.push(
                DrawIndexedIndirectArgs {
                    index_count: instruction.index_count,
                    instance_count: 1,
                    first_index: instruction.index_offset,
                    base_vertex: instruction.base_vertex,
                    first_instance: index as u32,
                },
            );

            index = index + 1;
        }
    }

    /// Copies records, instance indices and draw commands to device
    /// memory.  Returns whether the instance buffer had to be reallocated,
    /// in which case the caller's bind group referencing it was rebuilt.
    pub fn upload(&mut self) -> (rebuilt: bool)
        ensures
            rebuilt == (old(self).instance_data@.len() > old(self).instance_data_buffer.capacity),
            final(self).instance_data_buffer.capacity == (
            if old(self).instance_data@.len() > old(self).instance_data_buffer.capacity {
                grown_capacity(
                    old(self).instance_data_buffer.capacity as int,
                    old(self).instance_data@.len() as int,
                )
            } else {
                old(self).instance_data_buffer.capacity as int
            }),
            final(self).instance_data_buffer.capacity >= old(self).instance_data@.len(),
            final(self).instance_index_vertex_buffer.capacity >= old(
                self,
            ).instance_indices@.len(),
            final(self).command_buffer.capacity >= old(self).draw_commands@.len(),
            final(self).capabilities == old(self).capabilities,
            final(self).instance_data == old(self).instance_data,
            final(self).instance_indices == old(self).instance_indices,
            final(self).draw_commands == old(self).draw_commands,
    {
        let rebuilt = self.instance_data_buffer.write(self.instance_data.len());
        let _ = self.instance_index_vertex_buffer.write(self.instance_indices.len());
        let _ = self.command_buffer.write(self.draw_commands.len());
        rebuilt
    }

    /// The commands drawing one cube-map face of one shadow caster: the
    /// face's slice of the prepared batch, submitted in the mode the
    /// device supports.  An empty face issues nothing.
    #[verifier::loop_isolation(false)]
    pub fn face_draw_commands(
        &self,
        caster: &Vec<PointShadowBatch>,
        shadow_caster_index: usize,
        face_index: usize,
        instructions: &Vec<ModelInstruction>,
    ) -> (commands: Vec<GpuCommand>)
        requires
            shadow_caster_index < caster@.len(),
            face_index < CUBE_FACE_COUNT,
            caster@[shadow_caster_index as int].model_offset[face_index as int]
                + caster@[shadow_caster_index as int].model_count[face_index as int]
                <= instructions@.len(),
            instructions@.len() <= MAX_INSTRUCTION_COUNT,
        ensures
            commands@ == model_face_commands(
                self.capabilities,
                caster@[shadow_caster_index as int].model_offset[face_index as int] as int,
                caster@[shadow_caster_index as int].model_count[face_index as int] as int,
                instructions@,
            ),
            caster@[shadow_caster_index as int].model_count[face_index as int] == 0
                ==> commands@.len() == 0,
    {
        let batch = &caster[shadow_caster_index];
        let offset = batch.model_offset[face_index];
        let count = batch.model_count[face_index];

        let mut commands: Vec<GpuCommand> = Vec::new();

        if count == 0 {
            return commands;
        }

        commands.push(GpuCommand::SetPipeline { pipeline: 0 });
        commands.push(GpuCommand::SetBindGroup { index: 2 });

        let bindless = match self.capabilities.bindless {
            BindlessSupport::Full | BindlessSupport::Limited => true,
            BindlessSupport::Individual => false,
        };

        if bindless {
            commands.push(GpuCommand::SetBindGroup { index: 3 });
        }
        commands.push(GpuCommand::SetIndexBuffer);
        commands.push(GpuCommand::SetVertexBuffer { slot: 0 });
        commands.push(GpuCommand::SetVertexBuffer { slot: 1 });

        let ghost setup = commands@;
        proof {
            if bindless {
                assert(setup =~= bindless_setup());
            } else {
                assert(setup =~= individual_setup());
            }
        }

        if bindless && self.capabilities.multidraw_indirect {
            commands.push(GpuCommand::MultiDrawIndexedIndirect { offset, count: count as u32 });
            proof {
                assert(commands@ =~= model_face_commands(
                    self.capabilities,
                    offset as int,
                    count as int,
                    instructions@,
                ));
            }
            return commands;
        }

        let mut k: usize = 0;
        while k < count
            invariant
                k <= count,
                bindless ==> commands@ == bindless_setup() + indexed_draws(
                    instructions@,
                    offset as int,
                    k as int,
                ),
                !bindless ==> commands@ == individual_setup() + individually_textured_draws(
                    instructions@,
                    offset as int,
                    k as int,
                ),
            decreases count - k,
        {
            let instruction = &instructions[offset + k];

            if !bindless {
                commands.push(
                    GpuCommand::SetTextureBindGroup { index: 3, texture: instruction.texture_index },
                );
            }
            commands.push(
                GpuCommand::DrawIndexed {
                    first_index: instruction.index_offset,
                    index_count: instruction.index_count,
                    base_vertex: instruction.base_vertex,
                    first_instance: (offset + k) as u32,
                    instance_count: 1,
                },
            );

            proof {
                if bindless {
                    assert(commands@ =~= bindless_setup() + indexed_draws(
                        instructions@,
                        offset as int,
                        k as int + 1,
                    ));
                } else {
                    assert(commands@ =~= individual_setup() + individually_textured_draws(
                        instructions@,
                        offset as int,
                        k as int + 1,
                    ));
                }
            }

            k = k + 1;
        }

        commands
    }
}

} // verus!
