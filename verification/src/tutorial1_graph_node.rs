//! A render-graph node that clears the primary window, ordered after the
//! camera driver.
use vstd::prelude::*;

use crate::graph_setup::GraphSetup;
use crate::pass_plan::{clearing_pass, is_clearing_pass, PassPlan, RenderPassSettings};

verus! {

/// Adds [`MainPassNode`] to the render graph, after the camera driver node.
pub struct Tutorial1GraphNodePlugin;

/// Label of the main pass node.
#[derive(Debug, Hash, PartialEq, Eq, Clone, Copy, Structural)]
pub struct MainPassNodeLabel;

/// The node that records a pass clearing the primary window.
#[derive(Default)]
pub struct MainPassNode;

impl Tutorial1GraphNodePlugin {
    /// The wiring of this plugin: the main pass node under [`MainPassNodeLabel`],
    /// run after the camera driver node, which may also write to the view texture.
    pub fn graph_setup(&self) -> (setup: GraphSetup<MainPassNodeLabel>)
        ensures
            setup.node == MainPassNodeLabel,
            setup.after_camera_driver,
    {
        GraphSetup { node: MainPassNodeLabel, after_camera_driver: true }
    }
}

impl MainPassNode {
    /// The pass this node records: encoder "Render Encoder", pass "Render
    /// Pass", clearing the window's texture and keeping what was drawn, with
    /// no other attachment.
    pub fn pass_settings() -> (settings: RenderPassSettings)
        ensures
            is_clearing_pass(settings, "Render Encoder"@, "Render Pass"@),
    {
        clearing_pass("Render Encoder", "Render Pass")
    }

    /// Without a texture view of the primary window nothing is recorded;
    /// with one, a pass that clears it.
    pub fn plan(view_available: bool) -> (plan: PassPlan)
        ensures
            plan == (if view_available { PassPlan::Clear } else { PassPlan::Skip }),
    {
        if view_available {
            PassPlan::Clear
        } else {
            PassPlan::Skip
        }
    }
}

} // verus!
