//! The vocabulary in which the composer tells its host what to do: the
//! three pipelines of a frame and the commands of a plan.
//!
//! A plan is a sequence of commands that the host carries out in order,
//! against the GPU and the window. A command that fails ends the plan:
//! nothing after it is carried out.

use crate::geometry::{vertex_layout, Quad, Ratio};
use crate::pacer::Elapsed;
use crate::pipeline::{
    all_channels, inverted_highlight_blend, replace_blend, single_sample, strip_primitive,
    ColorTargetState, PipelineBuilderView, RenderPipelineView, FRAGMENT_ENTRY_POINT,
    VERTEX_ENTRY_POINT,
};
use crate::resource::{
    texture_layout, uniform_layout, BindGroupId, BindGroupLayoutEntry, BufferId, TargetFormat,
    TextureId,
};
use crate::surface::SurfaceConfiguration;
use vstd::prelude::*;

verus! {

/// The pipelines of a composer, one per pass.
#[derive(Clone, Copy, Debug, PartialEq, Eq, Structural)]
pub enum PipelineId {
    /// Fills the offscreen target with the time-driven procedural effect.
    Effect,
    /// Blends the text over the effect.
    TextOverlay,
    /// Grades the offscreen target onto the surface.
    PostProcess,
}

/// What a render pass renders into.
#[derive(Clone, Copy, Debug, PartialEq, Eq, Structural)]
pub enum Attachment {
    /// The offscreen target.
    Offscreen,
    /// The surface image acquired for this frame.
    Surface,
}

/// A colour of four 8-bit channels; 255 is full intensity.
#[derive(Clone, Copy, Debug, PartialEq, Eq, Structural)]
pub struct Rgba {
    pub r: u8,
    pub g: u8,
    pub b: u8,
    pub a: u8,
}

/// The colour every pass clears its target to.
pub open spec fn opaque_black() -> Rgba {
    Rgba { r: 0, g: 0, b: 0, a: 255 }
}

/// The uniform block that the shaders read.
#[derive(Clone, Copy, Debug, PartialEq, Eq, Structural)]
pub struct Uniforms {
    /// Time since the composer's clock started.
    pub time: Elapsed,
    /// Width of the surface over its height.
    pub aspect: Ratio,
}

/// Source text of the three shader modules.
#[derive(Clone, Debug, PartialEq, Eq)]
pub struct Shaders {
    pub effect: String,
    pub text_overlay: String,
    pub post_process: String,
}

/// The format of the target that the pipeline `id` renders into when the
/// surface has the format `surface_format`: effect and text go to the
/// offscreen target, post-processing goes to the surface.
pub open spec fn pipeline_target(id: PipelineId, surface_format: wgpu::TextureFormat)
    -> TargetFormat {
    match id {
        PipelineId::Effect => TargetFormat::Rgba8UnormSrgb,
        PipelineId::TextOverlay => TargetFormat::Rgba8UnormSrgb,
        PipelineId::PostProcess => TargetFormat::Surface(surface_format),
    }
}

/// The pipeline `id` with the shader `shader_code`.
///
/// Each pipeline reads one vertex buffer of quad vertices. The effect reads
/// the uniform bind group; the text overlay reads a texture bind group and
/// blends as an inverted highlight; post-processing reads the uniform bind
/// group in slot 0 and a texture bind group in slot 1.
pub open spec fn pipeline_view(
    id: PipelineId,
    shader_code: Seq<char>,
    surface_format: wgpu::TextureFormat,
) -> RenderPipelineView {
    let start = PipelineBuilderView::new(
        pipeline_target(id, surface_format),
        shader_code,
    ).with_buffer(vertex_layout());
    match id {
        PipelineId::Effect => start.with_bind_group(uniform_layout()).build(),
        PipelineId::TextOverlay => start.with_bind_group(texture_layout()).with_blending(
            inverted_highlight_blend(),
        ).build(),
        PipelineId::PostProcess => start.with_bind_group(uniform_layout()).with_bind_group(
            texture_layout(),
        ).build(),
    }
}

/// The target that a pipeline is built to render into.
pub open spec fn attachment_of(pipeline: PipelineId) -> Attachment {
    match pipeline {
        PipelineId::Effect => Attachment::Offscreen,
        PipelineId::TextOverlay => Attachment::Offscreen,
        PipelineId::PostProcess => Attachment::Surface,
    }
}

/// The bind group layouts that a pipeline reads, slot by slot.
pub open spec fn pipeline_layouts(pipeline: PipelineId) -> Seq<Seq<BindGroupLayoutEntry>> {
    match pipeline {
        PipelineId::Effect => seq![uniform_layout()],
        PipelineId::TextOverlay => seq![texture_layout()],
        PipelineId::PostProcess => seq![uniform_layout(), texture_layout()],
    }
}

/// What each pipeline is, read off field by field. Whatever its shader
/// and whatever the format of the surface, a pipeline reads quad vertices
/// from one vertex buffer and the bind group layouts listed for it; it
/// draws triangle strips without culling, single-sampled and without
/// depth or stencil test, into all channels of a target that has the
/// format of its attachment; and only the text overlay blends, the other
/// two replace what they draw over.
pub proof fn lemma_pipeline_contents(
    pipeline: PipelineId,
    shader_code: Seq<char>,
    surface_format: wgpu::TextureFormat,
)
    ensures
        pipeline_view(pipeline, shader_code, surface_format) == (RenderPipelineView {
            shader_code,
            vertex_entry_point: VERTEX_ENTRY_POINT@,
            fragment_entry_point: FRAGMENT_ENTRY_POINT@,
            bind_group_layouts: pipeline_layouts(pipeline),
            buffers: seq![vertex_layout()],
            target: ColorTargetState {
                format: pipeline_target(pipeline, surface_format),
                blend: if pipeline is TextOverlay {
                    inverted_highlight_blend()
                } else {
                    replace_blend()
                },
                write_mask: all_channels(),
            },
            primitive: strip_primitive(),
            depth_stencil: false,
            multisample: single_sample(),
        }),
        pipeline_target(pipeline, surface_format) is Surface <==> attachment_of(
            pipeline,
        ) is Surface,
{
    let built = pipeline_view(pipeline, shader_code, surface_format);
    assert(built.bind_group_layouts =~= pipeline_layouts(pipeline));
    assert(built.buffers =~= seq![vertex_layout()]);
}

/// Lightness of the background colour of the palette, in percent.
pub const BACKGROUND_LIGHTNESS: u32 = 10;

/// Lightness of the foreground colour of the palette, in percent.
pub const FOREGROUND_LIGHTNESS: u32 = 70;

/// The hue of a palette colour is drawn from zero up to this many degrees.
pub const HUE_LIMIT: u32 = 360;

/// The saturation of a palette colour is drawn from zero up to this many
/// percent.
pub const SATURATION_LIMIT: u32 = 100;

/// One step of a plan.
#[derive(Clone, Copy, Debug, PartialEq, Eq)]
pub enum Command {
    /// Configure the surface.
    ConfigureSurface(SurfaceConfiguration),
    /// Destroy a texture and release its memory.
    DestroyTexture(TextureId),
    /// Allocate the offscreen target for a surface of this size, with its
    /// sampler and bind group, in place of the destroyed one.
    CreateOffscreenTarget { width: u32, height: u32 },
    /// Overwrite the text vertex buffer with the vertices of this quad.
    WriteTextQuad(Quad),
    /// Overwrite the uniform buffer.
    WriteUniforms(Uniforms),
    /// Acquire the next image of the surface. This is the one command that
    /// can fail.
    AcquireSurface,
    /// Begin a render pass that clears its target.
    BeginRenderPass { target: Attachment, clear: Rgba },
    /// Bind a pipeline in the open pass.
    SetPipeline(PipelineId),
    /// Bind a whole buffer as vertex buffer in the open pass.
    SetVertexBuffer { slot: u32, buffer: BufferId },
    /// Bind a bind group in the open pass.
    SetBindGroup { index: u32, group: BindGroupId },
    /// Draw this many vertices, from the first on, this many times.
    Draw { vertex_count: u32, instance_count: u32 },
    /// End the open pass.
    EndRenderPass,
    /// Submit everything recorded since the last submission as one batch.
    Submit,
    /// Present the acquired surface image.
    Present,
    /// Block for the rest of the frame interval.
    Pace,
    /// Ask the window for another redraw.
    RequestRedraw,
    /// Leave the event loop.
    Exit,
    /// Report the failure that is being handled, and go on.
    LogError,
}

/// Whether `plan` asks for the next redraw exactly once, and does so as
/// the last thing it does.
pub open spec fn requests_redraw_last(plan: Seq<Command>) -> bool {
    &&& plan.len() > 0
    &&& plan.last() == Command::RequestRedraw
    &&& forall|i: int| 0 <= i < plan.len() - 1 ==> #[trigger] plan[i] != Command::RequestRedraw
}

} // verus!
