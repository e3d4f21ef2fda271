use learn_bevy_wgpu::primitive::{
    Face, FrontFace, PolygonMode, PrimitiveSettings, PrimitiveTopology, RequiredFeatures,
};
use learn_bevy_wgpu::pipeline::{
    BlendMode, ColorTarget, ColorWrites, MultisampleSettings, TextureFormat,
};
use learn_bevy_wgpu::primitive::IndexFormat;
use learn_bevy_wgpu::tutorial3_buffer::{pipeline_settings, primitive_settings};
use learn_bevy_wgpu::vertex_layout::VertexFormat;

#[test]
fn main_pipeline_primitive_settings() {
    let settings = primitive_settings();
    assert_eq!(
        settings,
        PrimitiveSettings {
            topology: PrimitiveTopology::TriangleList,
            strip_index_format: None,
            front_face: FrontFace::Ccw,
            cull_mode: Some(Face::Back),
            polygon_mode: PolygonMode::Fill,
            unclipped_depth: false,
            conservative: false,
        }
    );
    assert_eq!(
        settings.required_features(),
        RequiredFeatures {
            non_fill_polygon_mode: false,
            depth_clip_control: false,
            conservative_rasterization: false,
        }
    );
}

#[test]
fn optional_features_follow_settings() {
    let base = primitive_settings();
    let line = PrimitiveSettings { polygon_mode: PolygonMode::Line, ..base };
    assert!(line.required_features().non_fill_polygon_mode);
    let point = PrimitiveSettings { polygon_mode: PolygonMode::Point, ..base };
    assert!(point.required_features().non_fill_polygon_mode);
    let unclipped = PrimitiveSettings { unclipped_depth: true, ..base };
    assert_eq!(
        unclipped.required_features(),
        RequiredFeatures {
            non_fill_polygon_mode: false,
            depth_clip_control: true,
            conservative_rasterization: false,
        }
    );
    let conservative = PrimitiveSettings { conservative: true, ..base };
    assert_eq!(
        conservative.required_features(),
        RequiredFeatures {
            non_fill_polygon_mode: false,
            depth_clip_control: false,
            conservative_rasterization: true,
        }
    );
}

#[test]
fn strip_settings_need_no_feature() {
    let strip = PrimitiveSettings {
        topology: PrimitiveTopology::TriangleStrip,
        strip_index_format: Some(IndexFormat::Uint16),
        ..primitive_settings()
    };
    assert_eq!(
        strip.required_features(),
        RequiredFeatures {
            non_fill_polygon_mode: false,
            depth_clip_control: false,
            conservative_rasterization: false,
        }
    );
}

#[test]
fn main_pipeline_settings() {
    let settings = pipeline_settings(TextureFormat::Bgra8UnormSrgb);
    assert_eq!(settings.label, "Render Pipeline Layout");
    assert_eq!(settings.bind_group_layout_count, 0);
    assert_eq!(settings.push_constant_range_count, 0);
    assert_eq!(settings.vertex_entry_point, "vs_main");
    assert_eq!(settings.vertex_shader_def_count, 0);
    assert_eq!(settings.vertex_buffers.len(), 1);
    let layout = &settings.vertex_buffers[0];
    assert_eq!(layout.array_stride, 24);
    let offsets: Vec<u64> = layout.attributes.iter().map(|a| a.offset).collect();
    assert_eq!(offsets, vec![0, 12]);
    assert!(layout.attributes.iter().all(|a| a.format == VertexFormat::Float32x3));
    assert_eq!(settings.fragment_entry_point, "fs_main");
    assert_eq!(settings.fragment_shader_def_count, 0);
    assert_eq!(
        settings.color_targets,
        vec![ColorTarget {
            format: TextureFormat::Bgra8UnormSrgb,
            blend: Some(BlendMode::Replace),
            write_mask: ColorWrites { red: true, green: true, blue: true, alpha: true },
        }]
    );
    assert_eq!(settings.primitive, primitive_settings());
    assert!(!settings.has_depth_stencil);
    assert_eq!(
        settings.multisample,
        MultisampleSettings { count: 1, mask: !0, alpha_to_coverage_enabled: false }
    );
}

#[test]
fn pipeline_color_target_follows_swap_chain_format() {
    let settings = pipeline_settings(TextureFormat::Rgba8Unorm);
    assert_eq!(settings.color_targets.len(), 1);
    assert_eq!(settings.color_targets[0].format, TextureFormat::Rgba8Unorm);
}
