//! What a run of the main render pass node records.
use vstd::prelude::*;

use crate::primitive::IndexFormat;

verus! {

/// An indexed draw: indices `first_index..end_index` of the bound index
/// buffer, offset by `base_vertex`, for instances `first_instance..end_instance`.
#[derive(Debug, Clone, Copy, PartialEq, Eq, Structural)]
pub struct DrawIndexed {
    pub first_index: u32,
    pub end_index: u32,
    pub base_vertex: i32,
    pub first_instance: u32,
    pub end_instance: u32,
}

/// What a run of the main pass records.
#[derive(Debug, Clone, Copy, PartialEq, Eq, Structural)]
pub enum PassPlan {
    /// Nothing: there is no texture view of the primary window to draw to.
    Skip,
    /// A render pass that only clears the window's texture.
    Clear,
    /// A render pass that clears the window's texture, binds the pipeline,
    /// the vertex buffer at slot 0 and the 16-bit index buffer, and draws.
    ClearAndDraw(DrawIndexed),
}

/// What a render pass does with its color attachment before drawing.
#[derive(Debug, Clone, Copy, PartialEq, Eq, Structural)]
pub enum LoadOp {
    /// Clear it to a color.
    Clear,
    /// Keep what it holds.
    Load,
}

/// What a render pass does with its color attachment afterwards.
#[derive(Debug, Clone, Copy, PartialEq, Eq, Structural)]
pub enum StoreOp {
    /// Keep what was drawn.
    Store,
    /// Discard it.
    Discard,
}

/// The fixed settings of the command encoder and render pass a node records:
/// their labels, what happens to the single color attachment (the window's
/// texture view), and whether the pass has a resolve target, a depth-stencil
/// attachment, timestamp writes or an occlusion query set.
pub struct RenderPassSettings {
    pub encoder_label: &'static str,
    pub pass_label: &'static str,
    pub color_load: LoadOp,
    pub color_store: StoreOp,
    pub has_resolve_target: bool,
    pub has_depth_stencil_attachment: bool,
    pub has_timestamp_writes: bool,
    pub has_occlusion_query_set: bool,
}

/// `settings` describe a pass with the given labels that clears its color
/// attachment, keeps what was drawn, and has nothing but that attachment.
pub open spec fn is_clearing_pass(
    settings: RenderPassSettings,
    encoder_label: Seq<char>,
    pass_label: Seq<char>,
) -> bool {
    &&& settings.encoder_label@ == encoder_label
    &&& settings.pass_label@ == pass_label
    &&& settings.color_load == LoadOp::Clear
    &&& settings.color_store == StoreOp::Store
    &&& !settings.has_resolve_target
    &&& !settings.has_depth_stencil_attachment
    &&& !settings.has_timestamp_writes
    &&& !settings.has_occlusion_query_set
}

/// A pass with the given labels that clears its color attachment, keeps what
/// was drawn, and has nothing but that attachment.
pub fn clearing_pass(encoder_label: &'static str, pass_label: &'static str) -> (settings:
    RenderPassSettings)
    ensures
        is_clearing_pass(settings, encoder_label@, pass_label@),
        settings.encoder_label@ == encoder_label@,
        settings.pass_label@ == pass_label@,
        settings.color_load == LoadOp::Clear,
        settings.color_store == StoreOp::Store,
        !settings.has_resolve_target,
        !settings.has_depth_stencil_attachment,
        !settings.has_timestamp_writes,
        !settings.has_occlusion_query_set,
{
    RenderPassSettings {
        encoder_label,
        pass_label,
        color_load: LoadOp::Clear,
        color_store: StoreOp::Store,
        has_resolve_target: false,
        has_depth_stencil_attachment: false,
        has_timestamp_writes: false,
        has_occlusion_query_set: false,
    }
}

/// How the buffers of an indexed draw are bound: the vertex buffer slot, the
/// byte offset into the index buffer, and the width of its indices.
#[derive(Debug, Clone, Copy, PartialEq, Eq, Structural)]
pub struct BufferBindings {
    pub vertex_buffer_slot: u32,
    pub index_buffer_offset: u64,
    pub index_format: IndexFormat,
}

} // verus!
