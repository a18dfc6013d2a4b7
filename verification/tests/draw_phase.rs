use render_batch::aabb::ScreenAabbDrawer;
use render_batch::aabb::{build_box_corner_signs, build_box_line_indices};
use render_batch::blitter::{Msaa, PipelineKey, PostProcessingBlitterDrawer};
use render_batch::capabilities::{BindlessSupport, Capabilities, PassConfiguration};
use render_batch::command::GpuCommand;
use render_batch::instruction::{AabbInstruction, ModelInstruction};
use render_batch::model::{PointShadowBatch, PointShadowModelDrawer};

fn capabilities(bindless: BindlessSupport, multidraw_indirect: bool) -> Capabilities {
    Capabilities {
        partially_bound_binding_array: true,
        multidraw_indirect,
        bindless,
        max_texture_slots: 30,
    }
}

fn model(index_count: u32, index_offset: u32, base_vertex: i32, texture_index: i32) -> ModelInstruction {
    ModelInstruction {
        model_matrix: [[0x3F80_0000, 0, 0, 0], [0, 0x3F80_0000, 0, 0], [0, 0, 0x3F80_0000, 0], [
            0, 0, 0, 0x3F80_0000,
        ]],
        index_count,
        index_offset,
        base_vertex,
        texture_index,
    }
}

fn one_face_batch(offset: usize, count: usize) -> PointShadowBatch {
    PointShadowBatch {
        model_offset: [offset, 0, 0, 0, 0, 0],
        model_count: [count, 0, 0, 0, 0, 0],
    }
}

#[test]
fn model_prepare_packs_commands_in_order() {
    let mut drawer = PointShadowModelDrawer::new(capabilities(BindlessSupport::Full, true));
    let instructions = vec![model(36, 0, 0, 0), model(12, 36, 8, 1)];
    drawer.prepare(&instructions);

    assert_eq!(drawer.instance_data.len(), 2);
    assert_eq!(drawer.instance_indices, vec![0, 1]);
    assert_eq!(drawer.draw_commands.len(), 2);
    let second = drawer.draw_commands[1];
    assert_eq!(second.index_count, 12);
    assert_eq!(second.instance_count, 1);
    assert_eq!(second.first_index, 36);
    assert_eq!(second.base_vertex, 8);
    assert_eq!(second.first_instance, 1);
}

#[test]
fn model_prepare_of_empty_frame_changes_nothing() {
    let mut drawer = PointShadowModelDrawer::new(capabilities(BindlessSupport::Full, true));
    drawer.prepare(&vec![model(6, 0, 0, 0)]);
    drawer.prepare(&Vec::new());
    assert_eq!(drawer.instance_data.len(), 1);
    assert_eq!(drawer.instance_indices, vec![0]);
}

#[test]
fn model_empty_face_issues_nothing() {
    let drawer = PointShadowModelDrawer::new(capabilities(BindlessSupport::Full, true));
    let commands = drawer.face_draw_commands(&vec![one_face_batch(0, 0)], 0, 0, &Vec::new());
    assert!(commands.is_empty());
}

#[test]
fn model_face_uses_one_indirect_span() {
    let drawer = PointShadowModelDrawer::new(capabilities(BindlessSupport::Full, true));
    let instructions = vec![model(6, 0, 0, 0), model(6, 6, 0, 1), model(6, 12, 0, 2)];
    let commands = drawer.face_draw_commands(&vec![one_face_batch(1, 2)], 0, 0, &instructions);
    assert_eq!(
        commands,
        vec![
            GpuCommand::SetPipeline { pipeline: 0 },
            GpuCommand::SetBindGroup { index: 2 },
            GpuCommand::SetBindGroup { index: 3 },
            GpuCommand::SetIndexBuffer,
            GpuCommand::SetVertexBuffer { slot: 0 },
            GpuCommand::SetVertexBuffer { slot: 1 },
            GpuCommand::MultiDrawIndexedIndirect { offset: 1, count: 2 },
        ]
    );
}

#[test]
fn model_face_falls_back_to_one_draw_per_model() {
    let drawer = PointShadowModelDrawer::new(capabilities(BindlessSupport::Full, false));
    let instructions = vec![model(6, 0, 0, 0), model(9, 6, 4, 1)];
    let commands = drawer.face_draw_commands(&vec![one_face_batch(0, 2)], 0, 0, &instructions);
    assert_eq!(commands.len(), 8);
    assert_eq!(
        commands[6],
        GpuCommand::DrawIndexed {
            first_index: 0,
            index_count: 6,
            base_vertex: 0,
            first_instance: 0,
            instance_count: 1,
        }
    );
    assert_eq!(
        commands[7],
        GpuCommand::DrawIndexed {
            first_index: 6,
            index_count: 9,
            base_vertex: 4,
            first_instance: 1,
            instance_count: 1,
        }
    );
}

#[test]
fn model_face_binds_each_texture_without_bindless() {
    let drawer = PointShadowModelDrawer::new(capabilities(BindlessSupport::Individual, true));
    let instructions = vec![model(6, 0, 0, 5), model(9, 6, 4, 7)];
    let commands = drawer.face_draw_commands(&vec![one_face_batch(0, 2)], 0, 0, &instructions);
    assert_eq!(commands.len(), 9);
    assert_eq!(commands[0], GpuCommand::SetPipeline { pipeline: 0 });
    assert_eq!(commands[1], GpuCommand::SetBindGroup { index: 2 });
    assert_eq!(commands[5], GpuCommand::SetTextureBindGroup { index: 3, texture: 5 });
    assert_eq!(commands[7], GpuCommand::SetTextureBindGroup { index: 3, texture: 7 });
}

#[test]
fn aabb_batcher_packs_and_draws_boxes() {
    let mut drawer = ScreenAabbDrawer::new();
    drawer.prepare(&Vec::new());
    assert_eq!(drawer.draw_count, 0);
    assert!(drawer.draw_commands().is_empty());

    let boxes = vec![
        AabbInstruction { world: [[1, 2, 3, 4]; 4], color: [10, 20, 30, 40] },
        AabbInstruction { world: [[5, 6, 7, 8]; 4], color: [1, 1, 1, 1] },
    ];
    drawer.prepare(&boxes);
    assert_eq!(drawer.draw_count, 2);
    assert_eq!(drawer.instance_data[1].color, [1, 1, 1, 1]);

    let commands = drawer.draw_commands();
    assert_eq!(commands.len(), 5);
    assert_eq!(
        commands[4],
        GpuCommand::DrawIndexed {
            first_index: 0,
            index_count: 24,
            base_vertex: 0,
            first_instance: 0,
            instance_count: 2,
        }
    );
}

#[test]
fn box_geometry_is_consistent() {
    let corners = build_box_corner_signs();
    let indices = build_box_line_indices();
    assert_eq!(corners.len(), 8);
    assert_eq!(indices.len(), 24);
    for index in indices {
        assert!((index as usize) < corners.len());
    }
    assert_eq!(corners[0], [-1, -1, -1]);
    assert_eq!(corners[7], [1, 1, 1]);
}

#[test]
fn blitter_cache_holds_known_combinations_once() {
    let drawer = PostProcessingBlitterDrawer::new(1, 2, 3, Msaa::X4);
    assert_eq!(drawer.keys.len(), 5);

    // surface and color formats equal, no multisampling: duplicates collapse
    let collapsed = PostProcessingBlitterDrawer::new(2, 2, 3, Msaa::Off);
    assert_eq!(collapsed.keys.len(), 3);
}

#[test]
fn blitter_lookup_misses_unknown_combinations() {
    let drawer = PostProcessingBlitterDrawer::new(1, 2, 3, Msaa::X4);
    let unknown = PipelineKey {
        format: 9,
        msaa: Msaa::Off,
        luma_in_alpha: false,
        alpha_blending: false,
    };
    assert!(PostProcessingBlitterDrawer::position(&drawer.keys, unknown).is_none());
}

#[test]
fn blitter_draw_binds_the_matching_pipeline() {
    let drawer = PostProcessingBlitterDrawer::new(1, 2, 3, Msaa::X4);
    let commands = drawer.draw_commands(3, Msaa::X4, true, false);
    assert_eq!(commands.len(), 3);
    match commands[0] {
        GpuCommand::SetPipeline { pipeline } => {
            assert_eq!(
                drawer.keys[pipeline],
                PipelineKey { format: 3, msaa: Msaa::X4, luma_in_alpha: true, alpha_blending: false }
            );
        }
        _ => panic!("expected a pipeline binding"),
    }
    assert_eq!(commands[1], GpuCommand::SetBindGroup { index: 1 });
    assert_eq!(
        commands[2],
        GpuCommand::Draw { first_vertex: 0, vertex_count: 3, first_instance: 0, instance_count: 1 }
    );
}

#[test]
fn pass_configurations_are_validated() {
    let geometry = PassConfiguration {
        bind_group_count: 1,
        color_attachment_count: 3,
        depth_attachment_count: 1,
    };
    assert!(geometry.is_valid());
    let twisted = PassConfiguration {
        bind_group_count: 3,
        color_attachment_count: 2,
        depth_attachment_count: 0,
    };
    assert!(!twisted.is_valid());
}

#[test]
fn msaa_sample_counts_round_trip() {
    for mode in [Msaa::Off, Msaa::X2, Msaa::X4, Msaa::X8, Msaa::X16] {
        assert_eq!(Msaa::from_sample_count(mode.sample_count()), mode);
    }
    assert!(!Msaa::Off.multisampling_activated());
    assert!(Msaa::X4.multisampling_activated());
}
