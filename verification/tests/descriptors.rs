use frame_composer::geometry::{
    Quad, Ratio, Scalar, Vertex, VertexAttribute, VertexBufferLayout, VertexFormat,
    VertexStepMode,
};
use frame_composer::pacer::{Elapsed, FramePacer};
use frame_composer::pipeline::{
    BlendComponent, BlendFactor, BlendOperation, BlendState, ColorTargetState, ColorWrites,
    CullMode, FrontFace, MultisampleState, PipelineBuilder, PolygonMode, PrimitiveState,
    PrimitiveTopology,
};
use frame_composer::plan::{PipelineId, Shaders};
use frame_composer::resource::{
    bind_group, bitmap_layout, get_back_texture, texture_bind_group_layout,
    uniform_bind_group_layout, AddressMode, BindGroupEntry, BindGroupId, BindGroupLayoutEntry,
    BindingResource, BindingType, BufferId, BufferUsages, Extent3d, FilterMode, SamplerDescriptor,
    ShaderStage, TargetFormat, TexelCopyLayout, TextureDimension, TextureId, TextureUsages,
};
use frame_composer::state::State;
use wgpu::TextureFormat::{Bgra8Unorm, Bgra8UnormSrgb, Rgba16Float, Rgba8Unorm, Rgba8UnormSrgb};
use frame_composer::surface::{
    first_set_index, select_adapter, select_format_index, select_surface_format,
    SurfaceCapabilities,
};

fn scalar(num: i64, den: u32) -> Scalar {
    Scalar { num, den }
}

fn replace() -> BlendComponent {
    BlendComponent {
        src_factor: BlendFactor::One,
        dst_factor: BlendFactor::Zero,
        operation: BlendOperation::Add,
    }
}

fn vertex_layout() -> VertexBufferLayout {
    VertexBufferLayout {
        array_stride: 16,
        step_mode: VertexStepMode::Vertex,
        attributes: vec![
            VertexAttribute { format: VertexFormat::Float32x2, offset: 0, shader_location: 0 },
            VertexAttribute { format: VertexFormat::Float32x2, offset: 8, shader_location: 1 },
        ],
    }
}

fn texture_entries() -> Vec<BindGroupLayoutEntry> {
    vec![
        BindGroupLayoutEntry {
            binding: 0,
            visibility: ShaderStage::Fragment,
            ty: BindingType::FilterableTexture2d,
        },
        BindGroupLayoutEntry {
            binding: 1,
            visibility: ShaderStage::Fragment,
            ty: BindingType::FilteringSampler,
        },
    ]
}

fn uniform_entries() -> Vec<BindGroupLayoutEntry> {
    vec![
        BindGroupLayoutEntry {
            binding: 0,
            visibility: ShaderStage::Fragment,
            ty: BindingType::UniformBuffer,
        },
        BindGroupLayoutEntry {
            binding: 1,
            visibility: ShaderStage::Fragment,
            ty: BindingType::UniformBuffer,
        },
    ]
}

fn strip() -> PrimitiveState {
    PrimitiveState {
        topology: PrimitiveTopology::TriangleStrip,
        front_face: FrontFace::Ccw,
        cull_mode: CullMode::Disabled,
        polygon_mode: PolygonMode::Fill,
        unclipped_depth: false,
        conservative: false,
    }
}

#[test]
fn full_screen_quad_is_the_unit_strip() {
    let quad = Quad::full_screen();
    assert_eq!(quad, Quad { half_width: Ratio { num: 1, den: 1 }, half_height: Ratio { num: 1, den: 1 } });
    assert_eq!(
        quad.vertices(),
        vec![
            Vertex { x: scalar(-1, 1), y: scalar(-1, 1), u: scalar(0, 1), v: scalar(0, 1) },
            Vertex { x: scalar(-1, 1), y: scalar(1, 1), u: scalar(0, 1), v: scalar(1, 1) },
            Vertex { x: scalar(1, 1), y: scalar(-1, 1), u: scalar(1, 1), v: scalar(0, 1) },
            Vertex { x: scalar(1, 1), y: scalar(1, 1), u: scalar(1, 1), v: scalar(1, 1) },
        ]
    );
}

#[test]
fn text_quad_vertices_mirror_the_half_extent() {
    let quad = Quad::for_text((320, 96), (800, 600));
    assert_eq!(
        quad.vertices(),
        vec![
            Vertex { x: scalar(-320, 800), y: scalar(-96, 600), u: scalar(0, 1), v: scalar(0, 1) },
            Vertex { x: scalar(-320, 800), y: scalar(96, 600), u: scalar(0, 1), v: scalar(1, 1) },
            Vertex { x: scalar(320, 800), y: scalar(-96, 600), u: scalar(1, 1), v: scalar(0, 1) },
            Vertex { x: scalar(320, 800), y: scalar(96, 600), u: scalar(1, 1), v: scalar(1, 1) },
        ]
    );
}

#[test]
fn quad_of_extreme_sizes_does_not_overflow() {
    let quad = Quad::for_text((u32::MAX, 0), (0, u32::MAX));
    let corners = quad.vertices();
    assert_eq!(corners[0].x, scalar(-(u32::MAX as i64), 0));
    assert_eq!(corners[3].x, scalar(u32::MAX as i64, 0));
    assert_eq!(corners[0].y, scalar(0, u32::MAX));
    assert_eq!(quad.half_width.to_negative(), scalar(-4294967295, 0));
    assert_eq!(quad.half_width.to_positive(), scalar(4294967295, 0));
}

#[test]
fn vertex_layout_is_two_float_pairs() {
    assert_eq!(Vertex::desc(), vertex_layout());
    assert_eq!(VertexFormat::Float32.size(), 4);
    assert_eq!(VertexFormat::Float32x2.size(), 8);
    assert_eq!(VertexFormat::Float32x3.size(), 12);
    assert_eq!(VertexFormat::Float32x4.size(), 16);
}

#[test]
fn srgb_format_is_preferred() {
    assert_eq!(select_surface_format(&vec![Bgra8Unorm, Bgra8UnormSrgb]), Some(Bgra8UnormSrgb));
    assert_eq!(
        select_surface_format(&vec![Rgba16Float, Rgba8UnormSrgb, Bgra8UnormSrgb]),
        Some(Rgba8UnormSrgb)
    );
    assert_eq!(select_surface_format(&vec![Bgra8UnormSrgb, Bgra8Unorm]), Some(Bgra8UnormSrgb));
    assert_eq!(select_surface_format(&vec![Bgra8Unorm, Rgba8Unorm]), Some(Bgra8Unorm));
    assert_eq!(select_surface_format(&vec![Rgba16Float]), Some(Rgba16Float));
    assert_eq!(select_surface_format(&vec![]), None);
}

#[test]
fn format_index_is_first_srgb_else_first() {
    assert_eq!(select_format_index(&vec![false, true, true]), Some(1));
    assert_eq!(select_format_index(&vec![true]), Some(0));
    assert_eq!(select_format_index(&vec![false, false]), Some(0));
    assert_eq!(select_format_index(&vec![]), None);
}

#[test]
fn first_supporting_adapter_is_selected() {
    assert_eq!(select_adapter(&vec![false, true, true]), Some(1));
    assert_eq!(select_adapter(&vec![true, false]), Some(0));
    assert_eq!(select_adapter(&vec![false, false, false, true]), Some(3));
    assert_eq!(select_adapter(&vec![false, false]), None);
    assert_eq!(select_adapter(&vec![]), None);
    assert_eq!(first_set_index(&vec![false, false, true]), Some(2));
    assert_eq!(first_set_index(&vec![]), None);
}

#[test]
fn offscreen_target_is_a_sampled_render_attachment() {
    let target = get_back_texture((800, 600));
    assert_eq!(target.texture.size, Extent3d { width: 800, height: 600, depth_or_array_layers: 1 });
    assert_eq!(target.texture.mip_level_count, 1);
    assert_eq!(target.texture.sample_count, 1);
    assert_eq!(target.texture.dimension, TextureDimension::D2);
    assert_eq!(target.texture.format, TargetFormat::Rgba8UnormSrgb);
    assert_eq!(
        target.texture.usage,
        TextureUsages { copy_dst: false, texture_binding: true, render_attachment: true }
    );
    assert_eq!(
        target.sampler,
        SamplerDescriptor {
            address_mode_u: AddressMode::MirrorRepeat,
            address_mode_v: AddressMode::MirrorRepeat,
            address_mode_w: AddressMode::MirrorRepeat,
            mag_filter: FilterMode::Linear,
            min_filter: FilterMode::Linear,
            mipmap_filter: FilterMode::Nearest,
        }
    );
    assert_eq!(target.bind_group.layout.entries, texture_entries());
    assert_eq!(
        target.bind_group.entries,
        vec![
            BindGroupEntry { binding: 0, resource: BindingResource::TextureView(TextureId::Offscreen) },
            BindGroupEntry { binding: 1, resource: BindingResource::Sampler(TextureId::Offscreen) },
        ]
    );
    assert_eq!(target.texture, TextureId::Offscreen.descriptor((800, 600)));
    assert_eq!(get_back_texture((0, 3)).texture.size.width, 0);
}

#[test]
fn text_sampler_clamps_to_edge() {
    assert_eq!(
        TextureId::Text.sampler(),
        SamplerDescriptor {
            address_mode_u: AddressMode::ClampToEdge,
            address_mode_v: AddressMode::ClampToEdge,
            address_mode_w: AddressMode::ClampToEdge,
            mag_filter: FilterMode::Linear,
            min_filter: FilterMode::Linear,
            mipmap_filter: FilterMode::Nearest,
        }
    );
    assert_eq!(TextureId::Offscreen.sampler().address_mode_u, AddressMode::MirrorRepeat);
}

#[test]
fn bind_groups_fill_their_layouts() {
    assert_eq!(texture_bind_group_layout().entries, texture_entries());
    assert_eq!(uniform_bind_group_layout().entries, uniform_entries());
    let uniforms = bind_group(BindGroupId::Uniforms);
    assert_eq!(uniforms.layout.entries, uniform_entries());
    assert_eq!(
        uniforms.entries,
        vec![
            BindGroupEntry { binding: 0, resource: BindingResource::Buffer(BufferId::Uniforms) },
            BindGroupEntry { binding: 1, resource: BindingResource::Buffer(BufferId::Palette) },
        ]
    );
    let text = bind_group(BindGroupId::Text);
    assert_eq!(text.layout.entries, texture_entries());
    assert_eq!(
        text.entries,
        vec![
            BindGroupEntry { binding: 0, resource: BindingResource::TextureView(TextureId::Text) },
            BindGroupEntry { binding: 1, resource: BindingResource::Sampler(TextureId::Text) },
        ]
    );
    assert_eq!(bind_group(BindGroupId::Offscreen), get_back_texture((1, 1)).bind_group);
}

#[test]
fn buffer_usages_follow_their_role() {
    assert_eq!(BufferId::Quad.usage(), BufferUsages { vertex: true, uniform: false, copy_dst: false });
    assert_eq!(
        BufferId::TextQuad.usage(),
        BufferUsages { vertex: true, uniform: false, copy_dst: true }
    );
    assert_eq!(
        BufferId::Uniforms.usage(),
        BufferUsages { vertex: false, uniform: true, copy_dst: true }
    );
    assert_eq!(
        BufferId::Palette.usage(),
        BufferUsages { vertex: false, uniform: true, copy_dst: true }
    );
}

#[test]
fn bitmap_rows_are_four_bytes_per_pixel() {
    assert_eq!(
        bitmap_layout((320, 96)),
        Some(TexelCopyLayout { offset: 0, bytes_per_row: 1280, rows_per_image: 96 })
    );
    assert_eq!(
        bitmap_layout((0, 0)),
        Some(TexelCopyLayout { offset: 0, bytes_per_row: 0, rows_per_image: 0 })
    );
    assert_eq!(
        bitmap_layout((1_073_741_823, 1)),
        Some(TexelCopyLayout { offset: 0, bytes_per_row: 4_294_967_292, rows_per_image: 1 })
    );
    assert_eq!(bitmap_layout((1_073_741_824, 1)), None);
    assert_eq!(bitmap_layout((u32::MAX, 7)), None);
}

#[test]
fn builder_defaults_to_opaque_replace() {
    let pipeline =
        PipelineBuilder::new(TargetFormat::Rgba8UnormSrgb, String::from("code")).build();
    assert_eq!(pipeline.shader_code, "code");
    assert_eq!(pipeline.vertex_entry_point, "vs_main");
    assert_eq!(pipeline.fragment_entry_point, "fs_main");
    assert!(pipeline.bind_group_layouts.is_empty());
    assert!(pipeline.buffers.is_empty());
    assert_eq!(
        pipeline.target,
        ColorTargetState {
            format: TargetFormat::Rgba8UnormSrgb,
            blend: BlendState { color: replace(), alpha: replace() },
            write_mask: ColorWrites { red: true, green: true, blue: true, alpha: true },
        }
    );
    assert_eq!(pipeline.primitive, strip());
    assert!(!pipeline.depth_stencil);
    assert_eq!(
        pipeline.multisample,
        MultisampleState { count: 1, mask: u64::MAX, alpha_to_coverage_enabled: false }
    );
    assert_eq!(BlendState::replace(), BlendState { color: replace(), alpha: replace() });
}

#[test]
fn builder_keeps_the_order_of_what_it_is_given() {
    let pipeline = PipelineBuilder::new(
        TargetFormat::Surface(Bgra8Unorm),
        String::from("code"),
    )
    .with_bind_group(texture_bind_group_layout())
    .with_buffer(Vertex::desc())
    .with_bind_group(uniform_bind_group_layout())
    .with_blending(BlendState::inverted_highlight())
    .with_bind_group(texture_bind_group_layout())
    .build();
    let layouts: Vec<Vec<BindGroupLayoutEntry>> =
        pipeline.bind_group_layouts.iter().map(|layout| layout.entries.clone()).collect();
    assert_eq!(layouts, vec![texture_entries(), uniform_entries(), texture_entries()]);
    assert_eq!(pipeline.buffers, vec![vertex_layout()]);
    assert_eq!(pipeline.target.format, TargetFormat::Surface(Bgra8Unorm));
    assert_eq!(pipeline.target.blend, BlendState::inverted_highlight());
}

#[test]
fn last_blending_wins() {
    let pipeline = PipelineBuilder::new(TargetFormat::Rgba8UnormSrgb, String::new())
        .with_blending(BlendState::inverted_highlight())
        .with_blending(BlendState::replace())
        .build();
    assert_eq!(pipeline.target.blend, BlendState::replace());
}

#[test]
fn text_blending_is_the_inverted_highlight() {
    let inverted = BlendComponent {
        src_factor: BlendFactor::OneMinusDst,
        dst_factor: BlendFactor::OneMinusSrcAlpha,
        operation: BlendOperation::Add,
    };
    assert_eq!(BlendState::inverted_highlight(), BlendState { color: inverted, alpha: inverted });
}

#[test]
fn composer_pipelines_match_their_passes() {
    let caps = SurfaceCapabilities {
        formats: vec![wgpu::TextureFormat::Rgba8Unorm, wgpu::TextureFormat::Bgra8UnormSrgb],
        present_modes: vec![wgpu::PresentMode::Fifo],
        alpha_modes: vec![wgpu::CompositeAlphaMode::Auto],
    };
    let shaders = Shaders {
        effect: String::from("effect"),
        text_overlay: String::from("text"),
        post_process: String::from("post"),
    };
    let state = State::new((800, 600), &caps, (320, 96), shaders).unwrap();

    let effect = state.pipeline(PipelineId::Effect);
    assert_eq!(effect.shader_code, "effect");
    assert_eq!(effect.target.format, TargetFormat::Rgba8UnormSrgb);
    assert_eq!(effect.target.blend, BlendState::replace());
    assert_eq!(effect.buffers, vec![vertex_layout()]);
    assert_eq!(effect.bind_group_layouts, vec![uniform_bind_group_layout()]);
    assert_eq!(effect.primitive, strip());

    let text = state.pipeline(PipelineId::TextOverlay);
    assert_eq!(text.shader_code, "text");
    assert_eq!(text.target.format, TargetFormat::Rgba8UnormSrgb);
    assert_eq!(text.target.blend, BlendState::inverted_highlight());
    assert_eq!(text.buffers, vec![vertex_layout()]);
    assert_eq!(text.bind_group_layouts, vec![texture_bind_group_layout()]);

    let post = state.pipeline(PipelineId::PostProcess);
    assert_eq!(post.shader_code, "post");
    assert_eq!(post.target.format, TargetFormat::Surface(wgpu::TextureFormat::Bgra8UnormSrgb));
    assert_eq!(post.target.blend, BlendState::replace());
    assert_eq!(post.buffers, vec![vertex_layout()]);
    assert_eq!(
        post.bind_group_layouts,
        vec![uniform_bind_group_layout(), texture_bind_group_layout()]
    );
    assert_eq!(post.vertex_entry_point, "vs_main");
    assert_eq!(post.fragment_entry_point, "fs_main");
}

#[test]
fn pacer_fills_the_frame_interval() {
    let pacer = FramePacer::default();
    assert_eq!(pacer.interval_nanos, 16_666_667);
    assert_eq!(pacer.pause(Elapsed { secs: 0, subsec_nanos: 0 }), 16_666_667);
    assert_eq!(pacer.pause(Elapsed { secs: 0, subsec_nanos: 4_000_000 }), 12_666_667);
    assert_eq!(pacer.pause(Elapsed { secs: 0, subsec_nanos: 16_666_666 }), 1);
    assert_eq!(pacer.pause(Elapsed { secs: 0, subsec_nanos: 16_666_667 }), 0);
    assert_eq!(pacer.pause(Elapsed { secs: 0, subsec_nanos: 20_000_000 }), 0);
    assert_eq!(pacer.pause(Elapsed { secs: 1, subsec_nanos: 0 }), 0);
    assert_eq!(pacer.pause(Elapsed { secs: u64::MAX, subsec_nanos: u32::MAX }), 0);
}

#[test]
fn paced_frame_lasts_at_least_the_interval() {
    for interval in [0u64, 1, 16_666_667, 1_000_000_000, 5_000_000_000, u64::MAX] {
        let pacer = FramePacer::new(interval);
        for frame_time in [
            Elapsed { secs: 0, subsec_nanos: 0 },
            Elapsed { secs: 0, subsec_nanos: 16_666_666 },
            Elapsed { secs: 0, subsec_nanos: 999_999_999 },
            Elapsed { secs: 4, subsec_nanos: 999_999_999 },
            Elapsed { secs: 5, subsec_nanos: 1 },
        ] {
            let rest = pacer.pause(frame_time) as u128;
            let total = frame_time.as_nanos() + rest;
            assert!(total >= interval as u128);
            if frame_time.as_nanos() < interval as u128 {
                assert_eq!(total, interval as u128);
            } else {
                assert_eq!(rest, 0);
            }
        }
    }
}

#[test]
fn elapsed_counts_whole_nanoseconds() {
    assert_eq!(Elapsed { secs: 0, subsec_nanos: 0 }.as_nanos(), 0);
    assert_eq!(Elapsed { secs: 2, subsec_nanos: 5 }.as_nanos(), 2_000_000_005);
    assert_eq!(
        Elapsed { secs: u64::MAX, subsec_nanos: u32::MAX }.as_nanos(),
        18_446_744_073_709_551_615u128 * 1_000_000_000 + 4_294_967_295
    );
}
