//! Batcher for debug bounding boxes drawn as lines on screen.
//!
//! The box geometry is a fixed unit cube drawn as a line list; `prepare`
//! only packs one record (world transform and color) per box, and the draw
//! phase issues a single instanced indexed draw over the cube's 24 line
//! indices.

use vstd::prelude::*;

use crate::buffer::{grown_capacity, DeviceBuffer};
use crate::command::GpuCommand;
use crate::instruction::{AabbInstanceData, AabbInstruction};

verus! {

/// Initial element capacity of the instance buffer.
pub const INITIAL_INSTRUCTION_SIZE: usize = 256;

/// The largest instruction count a frame may carry: instance ids are 32-bit.
pub const MAX_INSTRUCTION_COUNT: usize = 0xFFFF_FFFF;

/// Number of line-list indices of the box.
pub const INDEX_COUNT: usize = 24;

/// Number of corners of the box.
pub const CORNER_COUNT: usize = 8;

/// The corners of the unit box, as signs per axis, in the order the index
/// list refers to them: x alternates fastest with +1 right, then y with +1
/// up, then z with +1 back.
pub open spec fn box_corner_signs() -> Seq<[i8; 3]> {
    seq![
        [-1i8, -1i8, -1i8],
        [-1i8, 1i8, -1i8],
        [1i8, -1i8, -1i8],
        [1i8, 1i8, -1i8],
        [-1i8, -1i8, 1i8],
        [-1i8, 1i8, 1i8],
        [1i8, -1i8, 1i8],
        [1i8, 1i8, 1i8],
    ]
}

/// The line-list indices of the box: four vertical side edges, then the
/// top rectangle, then the bottom rectangle.
pub open spec fn box_line_indices() -> Seq<u16> {
    seq![
        0u16, 1u16, 2u16, 3u16, 4u16, 5u16, 6u16, 7u16,
        1u16, 3u16, 3u16, 7u16, 7u16, 5u16, 5u16, 1u16,
        0u16, 2u16, 2u16, 6u16, 6u16, 4u16, 4u16, 0u16,
    ]
}

/// The corner table of the box as built at construction.  Every index of
/// the line list refers into this table.
pub fn build_box_corner_signs() -> (corners: Vec<[i8; 3]>)
    ensures
        corners@ == box_corner_signs(),
        corners@.len() == CORNER_COUNT,
{
    let mut corners: Vec<[i8; 3]> = Vec::new();
    corners.push([-1i8, -1i8, -1i8]);
    corners.push([-1i8, 1i8, -1i8]);
    corners.push([1i8, -1i8, -1i8]);
    corners.push([1i8, 1i8, -1i8]);
    corners.push([-1i8, -1i8, 1i8]);
    corners.push([-1i8, 1i8, 1i8]);
    corners.push([1i8, -1i8, 1i8]);
    corners.push([1i8, 1i8, 1i8]);
    proof {
        assert(corners@ =~= box_corner_signs());
    }
    corners
}

/// The index table of the box as built at construction: 24 line indices,
/// each referring to one of the 8 corners.
pub fn build_box_line_indices() -> (indices: Vec<u16>)
    ensures
        indices@ == box_line_indices(),
        indices@.len() == INDEX_COUNT,
        forall|i: int| 0 <= i < indices@.len() ==> indices@[i] < CORNER_COUNT,
{
    let table: [u16; 24] = [
        0u16, 1u16, 2u16, 3u16, 4u16, 5u16, 6u16, 7u16,
        1u16, 3u16, 3u16, 7u16, 7u16, 5u16, 5u16, 1u16,
        0u16, 2u16, 2u16, 6u16, 6u16, 4u16, 4u16, 0u16,
    ];
    let mut indices: Vec<u16> = Vec::new();
    let mut i: usize = 0;
    while i < 24
        invariant
            i <= 24,
            indices@.len() == i,
            forall|k: int| 0 <= k < i ==> indices@[k] == table@[k],
        decreases 24 - i,
    {
        indices.push(table[i]);
        i = i + 1;
    }
    proof {
        assert(indices@ =~= box_line_indices());
        assert forall|k: int| 0 <= k < indices@.len() implies indices@[k] < CORNER_COUNT by {
            assert(indices@[k] == box_line_indices()[k]);
        }
    }
    indices
}

/// The commands the box pass submits: nothing for an empty batch, else one
/// instanced draw of the 24 line indices.
pub open spec fn aabb_draw_commands(draw_count: int) -> Seq<GpuCommand> {
    if draw_count == 0 {
        Seq::empty()
    } else {
        seq![
            GpuCommand::SetPipeline { pipeline: 0 },
            GpuCommand::SetBindGroup { index: 2 },
            GpuCommand::SetVertexBuffer { slot: 0 },
            GpuCommand::SetIndexBuffer,
            GpuCommand::DrawIndexed {
                first_index: 0,
                index_count: 24,
                base_vertex: 0,
                first_instance: 0,
                instance_count: draw_count as u32,
            },
        ]
    }
}

/// Per-frame instance batcher of the debug bounding boxes.
pub struct ScreenAabbDrawer {
    /// Device buffer holding the box corners.
    pub vertex_buffer: DeviceBuffer,
    /// Device buffer holding the box line indices.
    pub index_buffer: DeviceBuffer,
    /// Device buffer receiving the instance records.
    pub instance_data_buffer: DeviceBuffer,
    /// Number of instances the draw phase submits this frame.
    pub draw_count: usize,
    /// Packed instance records, rebuilt every frame.
    pub instance_data: Vec<AabbInstanceData>,
}

impl ScreenAabbDrawer {
    /// A fresh batcher with an empty batch and the box geometry sized.
    pub fn new() -> (r: ScreenAabbDrawer)
        ensures
            r.draw_count == 0,
            r.instance_data@.len() == 0,
            r.vertex_buffer.capacity == CORNER_COUNT,
            r.index_buffer.capacity == INDEX_COUNT,
            r.instance_data_buffer.capacity == INITIAL_INSTRUCTION_SIZE,
    {
        ScreenAabbDrawer {
            vertex_buffer: DeviceBuffer::with_capacity(CORNER_COUNT),
            index_buffer: DeviceBuffer::with_capacity(INDEX_COUNT),
            instance_data_buffer: DeviceBuffer::with_capacity(INITIAL_INSTRUCTION_SIZE),
            draw_count: 0,
            instance_data: Vec::new(),
        }
    }

    /// Packs one record per box instruction, in order.  With no
    /// instructions the batch is marked empty and the records are left
    /// untouched.
    #[verifier::loop_isolation(false)]
    pub fn prepare(&mut self, instructions: &Vec<AabbInstruction>)
        requires
            instructions@.len() <= MAX_INSTRUCTION_COUNT,
        ensures
            final(self).vertex_buffer == old(self).vertex_buffer,
            final(self).index_buffer == old(self).index_buffer,
            final(self).instance_data_buffer == old(self).instance_data_buffer,
            final(self).draw_count == instructions@.len(),
            instructions@.len() == 0 ==> final(self).instance_data == old(self).instance_data,
            instructions@.len() > 0 ==> {
                &&& final(self).instance_data@.len() == instructions@.len()
                &&& forall|i: int|
                    0 <= i < instructions@.len() ==> final(self).instance_data@[i]
                        == (AabbInstanceData {
                        world: instructions@[i].world,
                        color: instructions@[i].color,
                    })
            },
    {
        self.draw_count = instructions.len();

        if self.draw_count == 0 {
            return ;
        }

        self.instance_data.clear();

        let mut index: usize = 0;
        while index < instructions.len()
            invariant
                index <= instructions@.len(),
                self.vertex_buffer == old(self).vertex_buffer,
                self.index_buffer == old(self).index_buffer,
                self.instance_data_buffer == old(self).instance_data_buffer,
                self.draw_count == instructions@.len(),
                self.instance_data@.len() == index,
                forall|i: int|
                    0 <= i < index ==> self.instance_data@[i] == (AabbInstanceData {
                        world: instructions@[i].world,
                        color: instructions@[i].color,
                    }),
            decreases instructions@.len() - index,
        {
            let instruction = &instructions[index];
            self.instance_data.push(
                AabbInstanceData { world: instruction.world, color: instruction.color },
            );
            index = index + 1;
        }
    }

    /// Copies the packed instance records to device memory.  Returns
    /// whether the instance buffer had to be reallocated, in which case
    /// the caller's bind group referencing it was rebuilt.
    pub fn upload(&mut self) -> (rebuilt: bool)
        ensures
            rebuilt == (old(self).instance_data@.len() > old(self).instance_data_buffer.capacity),
            final(self).instance_data_buffer.capacity >= old(self).instance_data@.len(),
            final(self).instance_data_buffer.capacity == (
            if old(self).instance_data@.len() > old(self).instance_data_buffer.capacity {
                grown_capacity(
                    old(self).instance_data_buffer.capacity as int,
                    old(self).instance_data@.len() as int,
                )
            } else {
                old(self).instance_data_buffer.capacity as int
            }),
            final(self).vertex_buffer == old(self).vertex_buffer,
            final(self).index_buffer == old(self).index_buffer,
            final(self).draw_count == old(self).draw_count,
            final(self).instance_data == old(self).instance_data,
    {
        self.instance_data_buffer.write(self.instance_data.len())
    }

    /// The commands this batcher submits to the render pass: none for an
    /// empty batch, else one instanced draw of the box line list.
    pub fn draw_commands(&self) -> (commands: Vec<GpuCommand>)
        requires
            self.draw_count <= MAX_INSTRUCTION_COUNT,
        ensures
            commands@ == aabb_draw_commands(self.draw_count as int),
            self.draw_count == 0 ==> commands@.len() == 0,
    {
        let mut commands: Vec<GpuCommand> = Vec::new();

        if self.draw_count == 0 {
            return commands;
        }

        commands.push(GpuCommand::SetPipeline { pipeline: 0 });
        commands.push(GpuCommand::SetBindGroup { index: 2 });
        commands.push(GpuCommand::SetVertexBuffer { slot: 0 });
        commands.push(GpuCommand::SetIndexBuffer);
        commands.push(
            GpuCommand::DrawIndexed {
                first_index: 0,
                index_count: 24,
                base_vertex: 0,
                first_instance: 0,
                instance_count: self.draw_count as u32,
            },
        );
        proof {
            assert(commands@ =~= aabb_draw_commands(self.draw_count as int));
        }
        commands
    }
}

} // verus!
