use render_batch::buffer::DeviceBuffer;
use render_batch::capabilities::{BindlessSupport, Capabilities};
use render_batch::command::GpuCommand;
use render_batch::entity::GeometryEntityDrawer;
use render_batch::instruction::EntityInstruction;
use render_batch::picker::PickerEntityDrawer;

fn sparse_capabilities() -> Capabilities {
    Capabilities {
        partially_bound_binding_array: true,
        multidraw_indirect: true,
        bindless: BindlessSupport::Full,
        max_texture_slots: 30,
    }
}

fn padded_capabilities(max_texture_slots: usize) -> Capabilities {
    Capabilities {
        partially_bound_binding_array: false,
        multidraw_indirect: false,
        bindless: BindlessSupport::Full,
        max_texture_slots,
    }
}

fn instruction(texture: u64, entity_id: u64) -> EntityInstruction {
    EntityInstruction {
        world: [[0x3F80_0000, 0, 0, 0], [0, 0x3F80_0000, 0, 0], [0, 0, 0x3F80_0000, 0], [
            0, 0, 0, 0x3F80_0000,
        ]],
        texture_position: [0, 0],
        texture_size: [0x3F80_0000, 0x3F80_0000],
        depth_offset: 7,
        curvature: 9,
        mirror: false,
        texture,
        entity_id,
    }
}

#[test]
fn empty_batch_draws_nothing() {
    let mut drawer = GeometryEntityDrawer::new(sparse_capabilities(), 0);
    drawer.prepare(&Vec::new());
    assert_eq!(drawer.draw_count, 0);
    assert!(drawer.draw_commands().is_empty());
}

#[test]
fn distinct_handles_get_distinct_slots() {
    let mut drawer = GeometryEntityDrawer::new(sparse_capabilities(), 0);
    let instructions = vec![
        instruction(500, 1),
        instruction(777, 2),
        instruction(500, 3),
        instruction(901, 4),
        instruction(777, 5),
    ];
    drawer.prepare(&instructions);

    assert_eq!(drawer.draw_count, 5);
    assert_eq!(drawer.texture_slots, vec![500, 777, 901]);
    let slots: Vec<i32> = drawer.instance_data.iter().map(|r| r.texture_index).collect();
    assert_eq!(slots, vec![0, 1, 0, 2, 1]);
    for slot in slots {
        assert!(0 <= slot && slot < 3);
    }
}

#[test]
fn same_handle_resolves_to_same_slot() {
    let mut drawer = GeometryEntityDrawer::new(sparse_capabilities(), 0);
    let instructions = vec![instruction(42, 1), instruction(9, 2), instruction(42, 3)];
    drawer.prepare(&instructions);
    assert_eq!(
        drawer.instance_data[0].texture_index,
        drawer.instance_data[2].texture_index
    );
    assert_ne!(
        drawer.instance_data[0].texture_index,
        drawer.instance_data[1].texture_index
    );
}

#[test]
fn records_copy_instruction_attributes() {
    let mut drawer = GeometryEntityDrawer::new(sparse_capabilities(), 0);
    let mut one = instruction(4, 1);
    one.mirror = true;
    one.depth_offset = 0x4120_0000;
    one.curvature = 0x40A0_0000;
    drawer.prepare(&vec![one]);

    let record = drawer.instance_data[0];
    assert_eq!(record.world, one.world);
    assert_eq!(record.texture_position, one.texture_position);
    assert_eq!(record.texture_size, one.texture_size);
    assert_eq!(record.depth_offset, 0x4120_0000);
    assert_eq!(record.curvature, 0x40A0_0000);
    assert_eq!(record.mirror, 1);
    assert_eq!(record.texture_index, 0);
}

#[test]
fn slot_array_padded_for_strict_backends() {
    let mut drawer = GeometryEntityDrawer::new(padded_capabilities(6), 123);
    assert_eq!(drawer.texture_slots, vec![123, 123, 123, 123, 123, 123]);

    let instructions = vec![instruction(50, 1), instruction(60, 2), instruction(50, 3)];
    drawer.prepare(&instructions);
    assert_eq!(drawer.texture_slots, vec![50, 60, 50, 50, 50, 50]);
}

#[test]
fn fallback_texture_fills_fresh_sparse_array() {
    let drawer = GeometryEntityDrawer::new(sparse_capabilities(), 77);
    assert_eq!(drawer.texture_slots, vec![77]);
}

#[test]
fn entity_draw_issues_one_instanced_quad() {
    let mut drawer = GeometryEntityDrawer::new(sparse_capabilities(), 0);
    drawer.prepare(&vec![instruction(1, 1), instruction(2, 2)]);
    let commands = drawer.draw_commands();
    assert_eq!(
        commands,
        vec![
            GpuCommand::SetPipeline { pipeline: 0 },
            GpuCommand::SetBindGroup { index: 1 },
            GpuCommand::Draw {
                first_vertex: 0,
                vertex_count: 6,
                first_instance: 0,
                instance_count: 2,
            },
        ]
    );
}

#[test]
fn upload_grows_buffer_once() {
    let mut drawer = GeometryEntityDrawer::new(sparse_capabilities(), 0);
    let instructions: Vec<EntityInstruction> =
        (0..300).map(|i| instruction(i as u64, i as u64)).collect();
    drawer.prepare(&instructions);
    // prepare already grew the buffer, so the upload copy never reallocates
    assert!(drawer.instance_data_buffer.capacity >= 300);
    assert!(!drawer.upload());
}

#[test]
fn picker_skips_the_player_entity() {
    let mut drawer = PickerEntityDrawer::new(sparse_capabilities(), 0);
    let instructions = vec![instruction(11, 100), instruction(22, 200), instruction(22, 300)];
    drawer.prepare(&instructions);

    assert_eq!(drawer.draw_count, 2);
    assert_eq!(drawer.instance_data.len(), 2);
    assert_eq!(drawer.texture_slots, vec![22]);
    assert_eq!(drawer.instance_data[0].texture_index, 0);
    assert_eq!(drawer.instance_data[1].texture_index, 0);
}

#[test]
fn picker_with_single_instruction_draws_nothing() {
    let mut drawer = PickerEntityDrawer::new(sparse_capabilities(), 0);
    drawer.prepare(&vec![instruction(11, 100)]);
    assert_eq!(drawer.draw_count, 0);
    assert!(drawer.draw_commands().is_empty());
}

#[test]
fn picker_splits_the_identifier() {
    let mut drawer = PickerEntityDrawer::new(sparse_capabilities(), 0);
    let instructions = vec![instruction(1, 0), instruction(2, 0x1234_5678_9ABC_DEF0)];
    drawer.prepare(&instructions);
    assert_eq!(drawer.instance_data[0].identifier_high, 0x1234_5678);
    assert_eq!(drawer.instance_data[0].identifier_low, 0x9ABC_DEF0);
}

#[test]
fn empty_frame_leaves_last_frame_untouched() {
    let mut drawer = GeometryEntityDrawer::new(sparse_capabilities(), 0);
    drawer.prepare(&vec![instruction(4, 1)]);
    let slots = drawer.texture_slots.clone();
    let records = drawer.instance_data.clone();

    drawer.prepare(&Vec::new());
    assert_eq!(drawer.draw_count, 0);
    assert_eq!(drawer.texture_slots, slots);
    assert_eq!(drawer.instance_data, records);
}

#[test]
fn device_buffer_grows_geometrically() {
    let mut buffer = DeviceBuffer::with_capacity(4);
    assert!(!buffer.write(3));
    assert_eq!(buffer.capacity, 4);
    assert!(buffer.write(5));
    assert_eq!(buffer.capacity, 8);
    assert!(buffer.write(100));
    assert_eq!(buffer.capacity, 100);
}
