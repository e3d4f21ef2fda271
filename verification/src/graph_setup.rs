//! How a plugin wires its node into the render graph.
use vstd::prelude::*;

verus! {

/// The render-graph wiring of a plugin: the node it adds, under which label,
/// and whether that node is ordered after the camera driver node (which also
/// writes to the window's texture).
#[derive(Debug, Clone, Copy, PartialEq, Eq)]
pub struct GraphSetup<L> {
    pub node: L,
    pub after_camera_driver: bool,
}

} // verus!
