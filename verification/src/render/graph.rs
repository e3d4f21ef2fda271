//! Labels of the render-graph nodes of this crate.
use vstd::prelude::*;

verus! {

/// Labels of the render-graph nodes that this crate adds.
#[derive(Debug, Hash, PartialEq, Eq, Clone, Copy, Structural)]
pub enum NodeLearnWgpu {
    Main,
}

} // verus!
