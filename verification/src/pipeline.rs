//! The settings of a render pipeline, as plain values.
use vstd::prelude::*;

use crate::primitive::PrimitiveSettings;
use crate::vertex_layout::VertexBufferLayout;

verus! {

/// Formats of a color target (those a window's swap chain commonly has).
#[derive(Debug, Clone, Copy, PartialEq, Eq, Structural)]
pub enum TextureFormat {
    Bgra8UnormSrgb,
    Bgra8Unorm,
    Rgba8UnormSrgb,
    Rgba8Unorm,
}

/// How a fragment's color is combined with the color already in the target.
#[derive(Debug, Clone, Copy, PartialEq, Eq, Structural)]
pub enum BlendMode {
    /// The fragment's color replaces the target's.
    Replace,
    /// Standard alpha blending.
    AlphaBlending,
    /// Alpha blending of premultiplied colors.
    PremultipliedAlphaBlending,
}

/// Which channels of a color target a pipeline writes.
#[derive(Debug, Clone, Copy, PartialEq, Eq, Structural)]
pub struct ColorWrites {
    pub red: bool,
    pub green: bool,
    pub blue: bool,
    pub alpha: bool,
}

/// One color target of a fragment stage.
#[derive(Debug, Clone, Copy, PartialEq, Eq, Structural)]
pub struct ColorTarget {
    pub format: TextureFormat,
    pub blend: Option<BlendMode>,
    pub write_mask: ColorWrites,
}

/// Multisampling of a pipeline: samples per pixel, the mask of samples
/// written, and whether alpha decides coverage.
#[derive(Debug, Clone, Copy, PartialEq, Eq, Structural)]
pub struct MultisampleSettings {
    pub count: u32,
    pub mask: u64,
    pub alpha_to_coverage_enabled: bool,
}

/// The settings of a render pipeline: its label, how many bind group layouts
/// and push constant ranges it has, the vertex stage (entry point, shader
/// definitions, vertex buffers), the fragment stage (entry point, shader
/// definitions, color targets), primitive state, whether it has a
/// depth-stencil state, and multisampling.
pub struct PipelineSettings {
    pub label: &'static str,
    pub bind_group_layout_count: usize,
    pub push_constant_range_count: usize,
    pub vertex_entry_point: &'static str,
    pub vertex_shader_def_count: usize,
    pub vertex_buffers: Vec<VertexBufferLayout>,
    pub fragment_entry_point: &'static str,
    pub fragment_shader_def_count: usize,
    pub color_targets: Vec<ColorTarget>,
    pub primitive: PrimitiveSettings,
    pub has_depth_stencil: bool,
    pub multisample: MultisampleSettings,
}

} // verus!
