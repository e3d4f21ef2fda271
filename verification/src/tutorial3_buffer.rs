//! A render-graph node that draws an indexed pentagon from a vertex and an
//! index buffer, ordered after the camera driver.
use vstd::prelude::*;

use crate::graph_setup::GraphSetup;
use crate::pass_plan::{
    clearing_pass,
    is_clearing_pass,
    BufferBindings,
    DrawIndexed,
    PassPlan,
    RenderPassSettings,
};
use crate::pipeline::{
    BlendMode,
    ColorTarget,
    ColorWrites,
    MultisampleSettings,
    PipelineSettings,
    TextureFormat,
};
use crate::primitive::{
    IndexFormat,
    required_features_of,
    Face,
    FrontFace,
    PolygonMode,
    PrimitiveSettings,
    PrimitiveTopology,
};
use crate::vertex_layout::{
    is_packed_layout,
    packed_layout,
    size_of_prefix,
    VertexBufferLayout,
    VertexFormat,
    VertexStepMode,
};

verus! {

/// Adds [`MainPassNode`] to the render graph, after the camera driver node,
/// and creates the pipeline and buffers it draws with.
pub struct Tutorial3BufferPlugin;

/// Label of the main pass node.
#[derive(Debug, Hash, PartialEq, Eq, Clone, Copy, Structural)]
pub struct MainPassNodeLabel;

/// The node that records the pass drawing the pentagon.
#[derive(Default)]
pub struct MainPassNode;

/// Number of vertices of the pentagon in the vertex buffer.
pub const VERTEX_COUNT: usize = 5;

/// The index data: three triangles of the pentagon, then one padding index
/// that makes the buffer a whole number of 4-byte words.
pub open spec fn index_seq() -> Seq<u16> {
    seq![0u16, 1, 4, 1, 2, 4, 2, 3, 4, 0]
}

/// `layout` is the layout of the pentagon's vertex buffer: a position and a
/// color packed at shader locations 0 and 1, 24 bytes per vertex.
pub open spec fn is_vertex_layout(layout: VertexBufferLayout) -> bool {
    &&& is_packed_layout(layout, vertex_formats())
    &&& layout.array_stride == 24
    &&& layout.step_mode == VertexStepMode::Vertex
    &&& layout.attributes@.len() == 2
    &&& layout.attributes@[0].offset == 0
    &&& layout.attributes@[0].shader_location == 0
    &&& layout.attributes@[0].format == VertexFormat::Float32x3
    &&& layout.attributes@[1].offset == 12
    &&& layout.attributes@[1].shader_location == 1
    &&& layout.attributes@[1].format == VertexFormat::Float32x3
}

/// The primitive state of the pipeline.
pub open spec fn main_primitive_settings() -> PrimitiveSettings {
    PrimitiveSettings {
        topology: PrimitiveTopology::TriangleList,
        strip_index_format: None,
        front_face: FrontFace::Ccw,
        cull_mode: Some(Face::Back),
        polygon_mode: PolygonMode::Fill,
        unclipped_depth: false,
        conservative: false,
    }
}

/// The attribute formats of a vertex: position, then color.
pub open spec fn vertex_formats() -> Seq<VertexFormat> {
    seq![VertexFormat::Float32x3, VertexFormat::Float32x3]
}

impl Tutorial3BufferPlugin {
    /// The wiring of this plugin: the main pass node under [`MainPassNodeLabel`],
    /// run after the camera driver node, which may also write to the view texture.
    pub fn graph_setup(&self) -> (setup: GraphSetup<MainPassNodeLabel>)
        ensures
            setup.node == MainPassNodeLabel,
            setup.after_camera_driver,
    {
        GraphSetup { node: MainPassNodeLabel, after_camera_driver: true }
    }
}

/// The contents of the index buffer. Its byte size is a multiple of 4 (the
/// copy alignment of buffer writes), every index names a vertex of the
/// pentagon, and all but the last (padding) index form whole triangles.
pub fn index_data() -> (indices: Vec<u16>)
    ensures
        indices@ == index_seq(),
        indices@ == seq![0u16, 1, 4, 1, 2, 4, 2, 3, 4, 0],
        (2 * indices@.len()) % 4 == 0,
        forall|i: int| 0 <= i < indices@.len() ==> (#[trigger] indices@[i] as int) < VERTEX_COUNT,
        (indices@.len() - 1) % 3 == 0,
{
    let indices: Vec<u16> = vec![0u16, 1, 4, 1, 2, 4, 2, 3, 4, 0];
    assert(indices@ =~= index_seq());
    indices
}

/// The layout of the vertex buffer: a position and a color, three 32-bit
/// floats each, packed at shader locations 0 and 1, 24 bytes per vertex.
pub fn vertex_buffer_layout() -> (layout: VertexBufferLayout)
    ensures
        is_vertex_layout(layout),
{
    let formats: Vec<VertexFormat> = vec![VertexFormat::Float32x3, VertexFormat::Float32x3];
    assert(formats@ =~= vertex_formats());
    let layout = packed_layout(&formats);
    proof {
        assert(size_of_prefix(vertex_formats(), 0) == 0);
        assert(size_of_prefix(vertex_formats(), 1) == 12);
        assert(size_of_prefix(vertex_formats(), 2) == 24);
        assert(layout.attributes@[0].offset == size_of_prefix(vertex_formats(), 0));
        assert(layout.attributes@[1].offset == size_of_prefix(vertex_formats(), 1));
    }
    layout
}

/// The primitive state of the pipeline: a filled triangle list (no strip index format),
/// counter-clockwise front faces, back faces culled, depth clipped and no
/// conservative rasterization, so that no optional device feature is needed.
pub fn primitive_settings() -> (settings: PrimitiveSettings)
    ensures
        settings == main_primitive_settings(),
        settings.topology == PrimitiveTopology::TriangleList,
        settings.strip_index_format == None::<IndexFormat>,
        settings.front_face == FrontFace::Ccw,
        settings.cull_mode == Some(Face::Back),
        settings.polygon_mode == PolygonMode::Fill,
        !settings.unclipped_depth,
        !settings.conservative,
        required_features_of(settings).is_none(),
{
    PrimitiveSettings {
        topology: PrimitiveTopology::TriangleList,
        strip_index_format: None,
        front_face: FrontFace::Ccw,
        cull_mode: Some(Face::Back),
        polygon_mode: PolygonMode::Fill,
        unclipped_depth: false,
        conservative: false,
    }
}

/// The settings of the pipeline that draws the pentagon, for a window whose
/// swap chain has the given color format: no bind groups or push constants,
/// the shader's `vs_main` reading one vertex buffer laid out by
/// [`vertex_buffer_layout`], its `fs_main` writing every channel of one color
/// target in that format with replacing blend, the primitive state of
/// [`primitive_settings`], no depth-stencil state, and one sample per pixel
/// with every sample written.
pub fn pipeline_settings(color_format: TextureFormat) -> (settings: PipelineSettings)
    ensures
        settings.label@ == "Render Pipeline Layout"@,
        settings.bind_group_layout_count == 0,
        settings.push_constant_range_count == 0,
        settings.vertex_entry_point@ == "vs_main"@,
        settings.vertex_shader_def_count == 0,
        settings.vertex_buffers@.len() == 1,
        is_vertex_layout(settings.vertex_buffers@[0]),
        settings.fragment_entry_point@ == "fs_main"@,
        settings.fragment_shader_def_count == 0,
        settings.color_targets@ == seq![
            ColorTarget {
                format: color_format,
                blend: Some(BlendMode::Replace),
                write_mask: ColorWrites { red: true, green: true, blue: true, alpha: true },
            },
        ],
        settings.primitive == main_primitive_settings(),
        !settings.has_depth_stencil,
        settings.multisample == (MultisampleSettings {
            count: 1,
            mask: u64::MAX,
            alpha_to_coverage_enabled: false,
        }),
{
    let vertex_buffers: Vec<VertexBufferLayout> = vec![vertex_buffer_layout()];
    let color_targets: Vec<ColorTarget> = vec![
        ColorTarget {
            format: color_format,
            blend: Some(BlendMode::Replace),
            write_mask: ColorWrites { red: true, green: true, blue: true, alpha: true },
        },
    ];
    let settings = PipelineSettings {
        label: "Render Pipeline Layout",
        bind_group_layout_count: 0,
        push_constant_range_count: 0,
        vertex_entry_point: "vs_main",
        vertex_shader_def_count: 0,
        vertex_buffers,
        fragment_entry_point: "fs_main",
        fragment_shader_def_count: 0,
        color_targets,
        primitive: primitive_settings(),
        has_depth_stencil: false,
        multisample: MultisampleSettings { count: 1, mask: u64::MAX, alpha_to_coverage_enabled: false },
    };
    assert(settings.color_targets@ =~= seq![
        ColorTarget {
            format: color_format,
            blend: Some(BlendMode::Replace),
            write_mask: ColorWrites { red: true, green: true, blue: true, alpha: true },
        },
    ]);
    settings
}

impl MainPassNode {
    /// The pass this node records: encoder "Render Encoder", pass "Render
    /// Pass", clearing the window's texture and keeping what was drawn, with
    /// no other attachment.
    pub fn pass_settings() -> (settings: RenderPassSettings)
        ensures
            is_clearing_pass(settings, "Render Encoder"@, "Render Pass"@),
    {
        clearing_pass("Render Encoder", "Render Pass")
    }

    /// How the draw binds its buffers: the vertex buffer at slot 0, and the
    /// whole index buffer (from byte 0) as 16-bit indices, as [`index_data`] holds.
    pub fn buffer_bindings() -> (bindings: BufferBindings)
        ensures
            bindings == (BufferBindings {
                vertex_buffer_slot: 0,
                index_buffer_offset: 0,
                index_format: IndexFormat::Uint16,
            }),
    {
        BufferBindings { vertex_buffer_slot: 0, index_buffer_offset: 0, index_format: IndexFormat::Uint16 }
    }

    /// The draw of the pass: every index of the buffer but the last, which is
    /// padding, with no base vertex offset, for one instance. A buffer length
    /// is taken as a 32-bit count, as the draw command takes one.
    pub fn draw_call(index_buffer_len: usize) -> (draw: DrawIndexed)
        requires
            (index_buffer_len as u32) >= 1,
        ensures
            draw.first_index == 0,
            draw.end_index == (index_buffer_len as u32) - 1,
            draw.base_vertex == 0,
            draw.first_instance == 0,
            draw.end_instance == 1,
            draw.end_index < index_buffer_len,
            index_buffer_len <= u32::MAX ==> draw.end_index + 1 == index_buffer_len,
    {
        let count: u32 = index_buffer_len as u32;
        DrawIndexed {
            first_index: 0,
            end_index: count - 1,
            base_vertex: 0,
            first_instance: 0,
            end_instance: 1,
        }
    }

    /// Without a texture view of the primary window nothing is recorded. With
    /// one, the pass clears it, and draws too once the pipeline is ready (it is
    /// compiled in the background and may not be at first).
    pub fn plan(view_available: bool, pipeline_ready: bool, index_buffer_len: usize) -> (plan:
        PassPlan)
        requires
            view_available && pipeline_ready ==> (index_buffer_len as u32) >= 1,
        ensures
            !view_available ==> plan == PassPlan::Skip,
            view_available && !pipeline_ready ==> plan == PassPlan::Clear,
            view_available && pipeline_ready ==> plan == PassPlan::ClearAndDraw(
                DrawIndexed {
                    first_index: 0,
                    end_index: ((index_buffer_len as u32) - 1) as u32,
                    base_vertex: 0,
                    first_instance: 0,
                    end_instance: 1,
                },
            ),
    {
        if !view_available {
            PassPlan::Skip
        } else if !pipeline_ready {
            PassPlan::Clear
        } else {
            PassPlan::ClearAndDraw(Self::draw_call(index_buffer_len))
        }
    }
}

} // verus!
