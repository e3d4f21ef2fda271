//! How a pipeline assembles and rasterizes primitives, and which optional
//! device features those settings need.
use vstd::prelude::*;

verus! {

/// How vertices are assembled into primitives.
#[derive(Debug, Clone, Copy, PartialEq, Eq, Structural)]
pub enum PrimitiveTopology {
    PointList,
    LineList,
    LineStrip,
    TriangleList,
    TriangleStrip,
}

/// Width of the indices in an index buffer.
#[derive(Debug, Clone, Copy, PartialEq, Eq, Structural)]
pub enum IndexFormat {
    Uint16,
    Uint32,
}

/// Which winding order makes a triangle front-facing.
#[derive(Debug, Clone, Copy, PartialEq, Eq, Structural)]
pub enum FrontFace {
    Ccw,
    Cw,
}

/// A face of a triangle.
#[derive(Debug, Clone, Copy, PartialEq, Eq, Structural)]
pub enum Face {
    Front,
    Back,
}

/// How triangles are rasterized: filled, as outlines, or as their corners.
#[derive(Debug, Clone, Copy, PartialEq, Eq, Structural)]
pub enum PolygonMode {
    Fill,
    Line,
    Point,
}

/// The primitive state of a render pipeline.
#[derive(Debug, Clone, Copy, PartialEq, Eq, Structural)]
pub struct PrimitiveSettings {
    pub topology: PrimitiveTopology,
    /// The index format whose maximum value restarts a strip; `None` for
    /// topologies that are not strips.
    pub strip_index_format: Option<IndexFormat>,
    pub front_face: FrontFace,
    pub cull_mode: Option<Face>,
    pub polygon_mode: PolygonMode,
    pub unclipped_depth: bool,
    pub conservative: bool,
}

/// Optional device features that primitive settings can depend on.
#[derive(Debug, Clone, Copy, PartialEq, Eq, Structural)]
pub struct RequiredFeatures {
    pub non_fill_polygon_mode: bool,
    pub depth_clip_control: bool,
    pub conservative_rasterization: bool,
}

impl RequiredFeatures {
    /// No optional feature is needed.
    pub open spec fn is_none(self) -> bool {
        !self.non_fill_polygon_mode && !self.depth_clip_control && !self.conservative_rasterization
    }
}

/// The optional features that `settings` need.
pub open spec fn required_features_of(settings: PrimitiveSettings) -> RequiredFeatures {
    RequiredFeatures {
        non_fill_polygon_mode: settings.polygon_mode != PolygonMode::Fill,
        depth_clip_control: settings.unclipped_depth,
        conservative_rasterization: settings.conservative,
    }
}

impl PrimitiveSettings {
    /// The optional features these settings need: any polygon mode but `Fill`
    /// needs non-fill polygon modes, unclipped depth needs depth clip control,
    /// and conservative rasterization needs that feature.
    pub fn required_features(&self) -> (features: RequiredFeatures)
        ensures
            features == required_features_of(*self),
            features.non_fill_polygon_mode <==> self.polygon_mode != PolygonMode::Fill,
            features.depth_clip_control == self.unclipped_depth,
            features.conservative_rasterization == self.conservative,
    {
        let non_fill = match self.polygon_mode {
            PolygonMode::Fill => false,
            _ => true,
        };
        RequiredFeatures {
            non_fill_polygon_mode: non_fill,
            depth_clip_control: self.unclipped_depth,
            conservative_rasterization: self.conservative,
        }
    }
}

/// Each optional feature is needed by exactly one setting: non-fill polygon
/// modes exactly when the polygon mode is not `Fill`, depth clip control
/// exactly when depth is unclipped, and conservative rasterization exactly
/// when it is switched on; topology, strip index format, front face and cull
/// mode need no feature.
pub proof fn lemma_required_features_exact(settings: PrimitiveSettings)
    ensures
        required_features_of(settings).non_fill_polygon_mode <==> (settings.polygon_mode
            == PolygonMode::Line || settings.polygon_mode == PolygonMode::Point),
        required_features_of(settings).depth_clip_control <==> settings.unclipped_depth,
        required_features_of(settings).conservative_rasterization <==> settings.conservative,
{
}

/// Two primitive states that agree on polygon mode, depth clipping and
/// conservative rasterization need the same features, however they differ in
/// topology, strip index format, front face or cull mode.
pub proof fn lemma_required_features_ignore_assembly(a: PrimitiveSettings, b: PrimitiveSettings)
    requires
        a.polygon_mode == b.polygon_mode,
        a.unclipped_depth == b.unclipped_depth,
        a.conservative == b.conservative,
    ensures
        required_features_of(a) == required_features_of(b),
{
}

/// A primitive state needs no optional feature exactly when it fills
/// polygons, clips depth and does not rasterize conservatively.
pub proof fn lemma_no_features_needed(settings: PrimitiveSettings)
    ensures
        required_features_of(settings).is_none() <==> (settings.polygon_mode == PolygonMode::Fill
            && !settings.unclipped_depth && !settings.conservative),
{
}

} // verus!
