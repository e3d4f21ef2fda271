//! Rendering logic of a bevy/wgpu learning project: render-graph wiring of the
//! plugins, the vertex buffer layout, the index data and the draw commands of
//! the main render pass, stated over plain values.
use vstd::prelude::*;

pub mod graph_setup;
pub mod pass_plan;
pub mod pipeline;
pub mod primitive;
pub mod render;
pub mod tutorial1_graph_node;
pub mod tutorial3_buffer;
pub mod vertex_layout;

verus! {

/// The top-level plugin: it installs the render plugin of this crate.
pub struct LearnWgpuPlugin;

} // verus!
