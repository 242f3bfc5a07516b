//! Render pipelines and the builder that assembles them.
//!
//! A pipeline description is an immutable value. Every pipeline built here
//! draws triangle strips without culling, single-sampled and without depth
//! or stencil test, from one shader module with a vertex and a fragment
//! entry point of fixed names.

use crate::geometry::{VertexBufferLayout, VertexBufferLayoutView};
use crate::resource::{BindGroupLayout, BindGroupLayoutEntry, TargetFormat};
use vstd::prelude::*;

verus! {

/// What a colour or alpha value is multiplied with before blending.
#[derive(Clone, Copy, Debug, PartialEq, Eq, Structural)]
pub enum BlendFactor {
    Zero,
    One,
    Src,
    OneMinusSrc,
    SrcAlpha,
    OneMinusSrcAlpha,
    Dst,
    OneMinusDst,
    DstAlpha,
    OneMinusDstAlpha,
    SrcAlphaSaturated,
    Constant,
    OneMinusConstant,
}

/// How the weighted source and destination values are combined.
#[derive(Clone, Copy, Debug, PartialEq, Eq, Structural)]
pub enum BlendOperation {
    Add,
    Subtract,
    ReverseSubtract,
    Min,
    Max,
}

/// The blend arithmetic of one component, colour or alpha:
/// `operation(src_factor * source, dst_factor * destination)`.
#[derive(Clone, Copy, Debug, PartialEq, Eq, Structural)]
pub struct BlendComponent {
    pub src_factor: BlendFactor,
    pub dst_factor: BlendFactor,
    pub operation: BlendOperation,
}

/// The blend arithmetic of a colour target.
#[derive(Clone, Copy, Debug, PartialEq, Eq, Structural)]
pub struct BlendState {
    pub color: BlendComponent,
    pub alpha: BlendComponent,
}

/// The blend mode that overwrites the destination with the source.
pub open spec fn replace_blend() -> BlendState {
    let replace = BlendComponent {
        src_factor: BlendFactor::One,
        dst_factor: BlendFactor::Zero,
        operation: BlendOperation::Add,
    };
    BlendState { color: replace, alpha: replace }
}

/// The blend mode of the text overlay. The source is weighted with one
/// minus the destination and the destination with one minus the source
/// alpha, for colour and alpha alike, so that text inverts what lies under
/// it instead of covering it.
pub open spec fn inverted_highlight_blend() -> BlendState {
    let inverted = BlendComponent {
        src_factor: BlendFactor::OneMinusDst,
        dst_factor: BlendFactor::OneMinusSrcAlpha,
        operation: BlendOperation::Add,
    };
    BlendState { color: inverted, alpha: inverted }
}

impl BlendState {
    /// Returns the blend mode that overwrites the destination.
    pub fn replace() -> (blend: BlendState)
        ensures
            blend == replace_blend(),
    {
        let replace = BlendComponent {
            src_factor: BlendFactor::One,
            dst_factor: BlendFactor::Zero,
            operation: BlendOperation::Add,
        };
        BlendState { color: replace, alpha: replace }
    }

    /// Returns the blend mode of the text overlay.
    pub fn inverted_highlight() -> (blend: BlendState)
        ensures
            blend == inverted_highlight_blend(),
    {
        let inverted = BlendComponent {
            src_factor: BlendFactor::OneMinusDst,
            dst_factor: BlendFactor::OneMinusSrcAlpha,
            operation: BlendOperation::Add,
        };
        BlendState { color: inverted, alpha: inverted }
    }
}

/// How vertices are assembled into primitives.
#[derive(Clone, Copy, Debug, PartialEq, Eq, Structural)]
pub enum PrimitiveTopology {
    PointList,
    LineList,
    LineStrip,
    TriangleList,
    TriangleStrip,
}

/// The winding order of a front-facing triangle.
#[derive(Clone, Copy, Debug, PartialEq, Eq, Structural)]
pub enum FrontFace {
    Ccw,
    Cw,
}

/// Which faces are discarded.
#[derive(Clone, Copy, Debug, PartialEq, Eq, Structural)]
pub enum CullMode {
    Disabled,
    Front,
    Back,
}

/// How the inside of a polygon is rasterized.
#[derive(Clone, Copy, Debug, PartialEq, Eq, Structural)]
pub enum PolygonMode {
    Fill,
    Line,
    Point,
}

/// How primitives are assembled and rasterized.
#[derive(Clone, Copy, Debug, PartialEq, Eq, Structural)]
pub struct PrimitiveState {
    pub topology: PrimitiveTopology,
    pub front_face: FrontFace,
    pub cull_mode: CullMode,
    pub polygon_mode: PolygonMode,
    pub unclipped_depth: bool,
    pub conservative: bool,
}

/// How many samples a pixel has and which of them are written.
#[derive(Clone, Copy, Debug, PartialEq, Eq, Structural)]
pub struct MultisampleState {
    pub count: u32,
    pub mask: u64,
    pub alpha_to_coverage_enabled: bool,
}

/// Which channels of the target a pipeline writes.
#[derive(Clone, Copy, Debug, PartialEq, Eq, Structural)]
pub struct ColorWrites {
    pub red: bool,
    pub green: bool,
    pub blue: bool,
    pub alpha: bool,
}

/// The one colour target that a pipeline renders into.
#[derive(Clone, Copy, Debug, PartialEq, Eq)]
pub struct ColorTargetState {
    pub format: TargetFormat,
    pub blend: BlendState,
    pub write_mask: ColorWrites,
}

/// The primitive state of every pipeline: triangle strips, front faces
/// counter-clockwise, nothing culled, polygons filled.
pub open spec fn strip_primitive() -> PrimitiveState {
    PrimitiveState {
        topology: PrimitiveTopology::TriangleStrip,
        front_face: FrontFace::Ccw,
        cull_mode: CullMode::Disabled,
        polygon_mode: PolygonMode::Fill,
        unclipped_depth: false,
        conservative: false,
    }
}

/// The multisample state of every pipeline: one sample, all of it written.
pub open spec fn single_sample() -> MultisampleState {
    MultisampleState { count: 1, mask: u64::MAX, alpha_to_coverage_enabled: false }
}

/// All four channels.
pub open spec fn all_channels() -> ColorWrites {
    ColorWrites { red: true, green: true, blue: true, alpha: true }
}

/// Name of the vertex-stage entry point that every shader module exposes.
pub const VERTEX_ENTRY_POINT: &'static str = "vs_main";

/// Name of the fragment-stage entry point that every shader module exposes.
pub const FRAGMENT_ENTRY_POINT: &'static str = "fs_main";

/// Everything needed to create a render pipeline.
#[derive(Clone, Debug, PartialEq, Eq)]
pub struct RenderPipelineDescriptor {
    /// Source text of the shader module.
    pub shader_code: String,
    pub vertex_entry_point: &'static str,
    pub fragment_entry_point: &'static str,
    /// Layout of the bind group in slot 0, slot 1, and so on.
    pub bind_group_layouts: Vec<BindGroupLayout>,
    /// Layout of the vertex buffer in slot 0, slot 1, and so on.
    pub buffers: Vec<VertexBufferLayout>,
    pub target: ColorTargetState,
    pub primitive: PrimitiveState,
    /// Whether fragments are tested against a depth or stencil buffer.
    pub depth_stencil: bool,
    pub multisample: MultisampleState,
}

/// The mathematical content of a [`RenderPipelineDescriptor`].
pub struct RenderPipelineView {
    pub shader_code: Seq<char>,
    pub vertex_entry_point: Seq<char>,
    pub fragment_entry_point: Seq<char>,
    pub bind_group_layouts: Seq<Seq<BindGroupLayoutEntry>>,
    pub buffers: Seq<VertexBufferLayoutView>,
    pub target: ColorTargetState,
    pub primitive: PrimitiveState,
    pub depth_stencil: bool,
    pub multisample: MultisampleState,
}

/// The content of each bind group layout in `layouts`.
pub open spec fn layouts_view(layouts: Seq<BindGroupLayout>) -> Seq<Seq<BindGroupLayoutEntry>> {
    Seq::new(layouts.len(), |i: int| layouts[i]@)
}

/// The content of each vertex buffer layout in `buffers`.
pub open spec fn buffers_view(buffers: Seq<VertexBufferLayout>) -> Seq<VertexBufferLayoutView> {
    Seq::new(buffers.len(), |i: int| buffers[i]@)
}

impl View for RenderPipelineDescriptor {
    type V = RenderPipelineView;

    open spec fn view(&self) -> RenderPipelineView {
        RenderPipelineView {
            shader_code: self.shader_code@,
            vertex_entry_point: self.vertex_entry_point@,
            fragment_entry_point: self.fragment_entry_point@,
            bind_group_layouts: layouts_view(self.bind_group_layouts@),
            buffers: buffers_view(self.buffers@),
            target: self.target,
            primitive: self.primitive,
            depth_stencil: self.depth_stencil,
            multisample: self.multisample,
        }
    }
}

/// Accumulates what a pipeline is made of, then builds it.
#[derive(Clone, Debug, PartialEq, Eq)]
pub struct PipelineBuilder {
    bind_groups: Vec<BindGroupLayout>,
    blending: BlendState,
    buffers: Vec<VertexBufferLayout>,
    shader_code: String,
    color_format: TargetFormat,
}

/// The mathematical content of a [`PipelineBuilder`].
pub struct PipelineBuilderView {
    pub bind_groups: Seq<Seq<BindGroupLayoutEntry>>,
    pub blending: BlendState,
    pub buffers: Seq<VertexBufferLayoutView>,
    pub shader_code: Seq<char>,
    pub color_format: TargetFormat,
}

impl PipelineBuilderView {
    /// A builder for a pipeline that renders into a target of format
    /// `color_format` with the shader `shader_code`: no vertex buffer and
    /// no bind group yet, and the source replaces the destination.
    pub open spec fn new(color_format: TargetFormat, shader_code: Seq<char>) -> Self {
        PipelineBuilderView {
            bind_groups: Seq::empty(),
            blending: replace_blend(),
            buffers: Seq::empty(),
            shader_code,
            color_format,
        }
    }

    /// This builder with its blend mode replaced by `blending`.
    pub open spec fn with_blending(self, blending: BlendState) -> Self {
        PipelineBuilderView { blending, ..self }
    }

    /// This builder with `bind_group` in the next free bind group slot.
    pub open spec fn with_bind_group(self, bind_group: Seq<BindGroupLayoutEntry>) -> Self {
        PipelineBuilderView { bind_groups: self.bind_groups.push(bind_group), ..self }
    }

    /// This builder with `buffer` in the next free vertex buffer slot.
    pub open spec fn with_buffer(self, buffer: VertexBufferLayoutView) -> Self {
        PipelineBuilderView { buffers: self.buffers.push(buffer), ..self }
    }

    /// The pipeline that this builder describes.
    pub open spec fn build(self) -> RenderPipelineView {
        RenderPipelineView {
            shader_code: self.shader_code,
            vertex_entry_point: VERTEX_ENTRY_POINT@,
            fragment_entry_point: FRAGMENT_ENTRY_POINT@,
            bind_group_layouts: self.bind_groups,
            buffers: self.buffers,
            target: ColorTargetState {
                format: self.color_format,
                blend: self.blending,
                write_mask: all_channels(),
            },
            primitive: strip_primitive(),
            depth_stencil: false,
            multisample: single_sample(),
        }
    }
}

impl View for PipelineBuilder {
    type V = PipelineBuilderView;

    closed spec fn view(&self) -> PipelineBuilderView {
        PipelineBuilderView {
            bind_groups: layouts_view(self.bind_groups@),
            blending: self.blending,
            buffers: buffers_view(self.buffers@),
            shader_code: self.shader_code@,
            color_format: self.color_format,
        }
    }
}

impl PipelineBuilder {
    /// Starts a pipeline that renders into a target of format
    /// `color_format` with the shader `shader_code`.
    pub fn new(color_format: TargetFormat, shader_code: String) -> (builder: PipelineBuilder)
        ensures
            builder@ == PipelineBuilderView::new(color_format, shader_code@),
    {
        let builder = PipelineBuilder {
            color_format,
            bind_groups: Vec::new(),
            buffers: Vec::new(),
            shader_code,
            blending: BlendState::replace(),
        };
        assert(builder@.bind_groups =~= Seq::empty());
        assert(builder@.buffers =~= Seq::empty());
        builder
    }

    /// Sets the blend mode.
    pub fn with_blending(self, blending: BlendState) -> (builder: PipelineBuilder)
        ensures
            builder@ == self@.with_blending(blending),
    {
        let mut builder = self;
        builder.blending = blending;
        builder
    }

    /// Appends a bind group layout. Its slot is the number of layouts
    /// appended before it.
    pub fn with_bind_group(self, bind_group: BindGroupLayout) -> (builder: PipelineBuilder)
        ensures
            builder@ == self@.with_bind_group(bind_group@),
    {
        let mut builder = self;
        builder.bind_groups.push(bind_group);
        assert(builder@.bind_groups =~= self@.bind_groups.push(bind_group@));
        builder
    }

    /// Appends a vertex buffer layout. Its slot is the number of layouts
    /// appended before it.
    pub fn with_buffer(self, buffer: VertexBufferLayout) -> (builder: PipelineBuilder)
        ensures
            builder@ == self@.with_buffer(buffer@),
    {
        let mut builder = self;
        builder.buffers.push(buffer);
        assert(builder@.buffers =~= self@.buffers.push(buffer@));
        builder
    }

    /// Builds the pipeline description.
    pub fn build(self) -> (pipeline: RenderPipelineDescriptor)
        ensures
            pipeline@ == self@.build(),
    {
        RenderPipelineDescriptor {
            shader_code: self.shader_code,
            vertex_entry_point: VERTEX_ENTRY_POINT,
            fragment_entry_point: FRAGMENT_ENTRY_POINT,
            bind_group_layouts: self.bind_groups,
            buffers: self.buffers,
            target: ColorTargetState {
                format: self.color_format,
                blend: self.blending,
                write_mask: ColorWrites { red: true, green: true, blue: true, alpha: true },
            },
            primitive: PrimitiveState {
                topology: PrimitiveTopology::TriangleStrip,
                front_face: FrontFace::Ccw,
                cull_mode: CullMode::Disabled,
                polygon_mode: PolygonMode::Fill,
                unclipped_depth: false,
                conservative: false,
            },
            depth_stencil: false,
            multisample: MultisampleState {
                count: 1,
                mask: u64::MAX,
                alpha_to_coverage_enabled: false,
            },
        }
    }
}

} // verus!
