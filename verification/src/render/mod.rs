//! The render plugin of this crate: one node that clears the primary window.
use vstd::prelude::*;

use crate::graph_setup::GraphSetup;
use crate::pass_plan::{clearing_pass, is_clearing_pass, RenderPassSettings};

pub mod graph;

use graph::NodeLearnWgpu;

verus! {

/// Adds the main pass node to the render graph of the render sub-app.
pub struct LearnWgpuRenderPlugin;

/// The node that records the main render pass.
#[derive(Default)]
pub struct MainPassNode;

impl LearnWgpuRenderPlugin {
    /// The wiring of this plugin: the main pass node under `NodeLearnWgpu::Main`,
    /// with no ordering constraint.
    pub fn graph_setup(&self) -> (setup: GraphSetup<NodeLearnWgpu>)
        ensures
            setup.node == NodeLearnWgpu::Main,
            !setup.after_camera_driver,
    {
        GraphSetup { node: NodeLearnWgpu::Main, after_camera_driver: false }
    }
}

impl MainPassNode {
    /// The pass this node records: encoder "Render Encoder", pass
    /// "main_opaque_pass_3d", clearing the window's texture and keeping what
    /// was drawn, with no other attachment.
    pub fn pass_settings() -> (settings: RenderPassSettings)
        ensures
            is_clearing_pass(settings, "Render Encoder"@, "main_opaque_pass_3d"@),
    {
        clearing_pass("Render Encoder", "main_opaque_pass_3d")
    }
}

} // verus!
