use learn_bevy_wgpu::pass_plan::{BufferBindings, DrawIndexed, LoadOp, PassPlan, StoreOp};
use learn_bevy_wgpu::primitive::IndexFormat;
use learn_bevy_wgpu::render::graph::NodeLearnWgpu;
use learn_bevy_wgpu::render::LearnWgpuRenderPlugin;
use learn_bevy_wgpu::tutorial1_graph_node::{self, Tutorial1GraphNodePlugin};
use learn_bevy_wgpu::tutorial3_buffer::{self, index_data, Tutorial3BufferPlugin, VERTEX_COUNT};

#[test]
fn render_plugin_wiring() {
    let setup = LearnWgpuRenderPlugin.graph_setup();
    assert_eq!(setup.node, NodeLearnWgpu::Main);
    assert!(!setup.after_camera_driver);
}

#[test]
fn tutorial1_wiring() {
    let setup = Tutorial1GraphNodePlugin.graph_setup();
    assert_eq!(setup.node, tutorial1_graph_node::MainPassNodeLabel);
    assert!(setup.after_camera_driver);
}

#[test]
fn tutorial3_wiring() {
    let setup = Tutorial3BufferPlugin.graph_setup();
    assert_eq!(setup.node, tutorial3_buffer::MainPassNodeLabel);
    assert!(setup.after_camera_driver);
}

#[test]
fn tutorial1_plan() {
    assert_eq!(tutorial1_graph_node::MainPassNode::plan(false), PassPlan::Skip);
    assert_eq!(tutorial1_graph_node::MainPassNode::plan(true), PassPlan::Clear);
}

#[test]
fn index_data_contents() {
    let indices = index_data();
    assert_eq!(indices, vec![0, 1, 4, 1, 2, 4, 2, 3, 4, 0]);
    assert_eq!((indices.len() * 2) % 4, 0);
    assert!(indices.iter().all(|&i| (i as usize) < VERTEX_COUNT));
    assert_eq!((indices.len() - 1) % 3, 0);
}

#[test]
fn draw_call_leaves_out_padding() {
    let draw = tutorial3_buffer::MainPassNode::draw_call(10);
    assert_eq!(
        draw,
        DrawIndexed { first_index: 0, end_index: 9, base_vertex: 0, first_instance: 0, end_instance: 1 }
    );
    assert_eq!(tutorial3_buffer::MainPassNode::draw_call(1).end_index, 0);
}

#[test]
fn draw_call_truncates_length_to_u32() {
    if usize::BITS > 32 {
        let len = u32::MAX as usize + 8;
        assert_eq!(tutorial3_buffer::MainPassNode::draw_call(len).end_index, 6);
    }
}

#[test]
fn tutorial3_plan_cases() {
    let n = index_data().len();
    assert_eq!(tutorial3_buffer::MainPassNode::plan(false, true, n), PassPlan::Skip);
    assert_eq!(tutorial3_buffer::MainPassNode::plan(false, false, 0), PassPlan::Skip);
    assert_eq!(tutorial3_buffer::MainPassNode::plan(true, false, 0), PassPlan::Clear);
    assert_eq!(
        tutorial3_buffer::MainPassNode::plan(true, true, n),
        PassPlan::ClearAndDraw(DrawIndexed {
            first_index: 0,
            end_index: 9,
            base_vertex: 0,
            first_instance: 0,
            end_instance: 1,
        })
    );
}

#[test]
fn pass_settings_of_each_node() {
    let passes = [
        (learn_bevy_wgpu::render::MainPassNode::pass_settings(), "main_opaque_pass_3d"),
        (tutorial1_graph_node::MainPassNode::pass_settings(), "Render Pass"),
        (tutorial3_buffer::MainPassNode::pass_settings(), "Render Pass"),
    ];
    for (pass, pass_label) in passes {
        assert_eq!(pass.encoder_label, "Render Encoder");
        assert_eq!(pass.pass_label, pass_label);
        assert_eq!(pass.color_load, LoadOp::Clear);
        assert_eq!(pass.color_store, StoreOp::Store);
        assert!(!pass.has_resolve_target);
        assert!(!pass.has_depth_stencil_attachment);
        assert!(!pass.has_timestamp_writes);
        assert!(!pass.has_occlusion_query_set);
    }
}

#[test]
fn tutorial3_buffer_bindings() {
    assert_eq!(
        tutorial3_buffer::MainPassNode::buffer_bindings(),
        BufferBindings { vertex_buffer_slot: 0, index_buffer_offset: 0, index_format: IndexFormat::Uint16 }
    );
}
