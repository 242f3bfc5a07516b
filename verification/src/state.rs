//! The frame composer: what it knows of its GPU resources, and the plans by
//! which it handles a resize and draws a frame.
//!
//! The composer does not touch the GPU. It keeps a record of how each
//! resource was last configured or written, and answers every event with a
//! plan for the host to carry out.

use crate::geometry::{text_quad, Quad, Ratio, Vertex, QUAD_VERTEX_COUNT};
use crate::pacer::Elapsed;
use crate::pipeline::{BlendState, PipelineBuilder, RenderPipelineDescriptor, RenderPipelineView};
use crate::plan::{
    opaque_black, pipeline_view, Attachment, Command, PipelineId, Rgba, Shaders, Uniforms,
};
use crate::resource::{
    back_texture_descriptor, get_back_texture, text_texture_descriptor,
    texture_bind_group_layout, uniform_bind_group_layout, BindGroupId, BufferId,
    Extent3d, TargetFormat, TextureDescriptor, TextureId,
};
use crate::surface::{initial_configuration, InitError, SurfaceCapabilities, SurfaceConfiguration};
use vstd::prelude::*;

verus! {

/// The mathematical content of a [`State`].
pub struct StateView {
    /// The configuration that the surface has, or will get when it is
    /// first configured.
    pub config: SurfaceConfiguration,
    /// Whether the surface has been configured since start-up.
    pub is_surface_configured: bool,
    /// The effect pipeline.
    pub pipeline: RenderPipelineView,
    /// The post-processing pipeline.
    pub pipeline_post: RenderPipelineView,
    /// The text overlay pipeline.
    pub pipeline_text: RenderPipelineView,
    /// The quad last written to the text vertex buffer.
    pub text_vertex_buffer: Quad,
    /// The block last written to the uniform buffer.
    pub uniform_buffer: Uniforms,
    /// What the offscreen target was allocated from.
    pub back_texture: TextureDescriptor,
    /// What the text texture was allocated from.
    pub text_texture: TextureDescriptor,
}

/// The uniform block for a frame drawn `time` after the clock started on a
/// surface of `size` pixels.
pub open spec fn uniforms_at(time: Elapsed, size: (u32, u32)) -> Uniforms {
    Uniforms { time, aspect: Ratio { num: size.0, den: size.1 } }
}

/// The first pass: clear the offscreen target to opaque black, draw the
/// effect over all of it, then blend the text quad over the effect.
pub open spec fn offscreen_pass() -> Seq<Command> {
    seq![
        Command::BeginRenderPass { target: Attachment::Offscreen, clear: opaque_black() },
        Command::SetPipeline(PipelineId::Effect),
        Command::SetVertexBuffer { slot: 0, buffer: BufferId::Quad },
        Command::SetBindGroup { index: 0, group: BindGroupId::Uniforms },
        Command::Draw { vertex_count: QUAD_VERTEX_COUNT, instance_count: 1 },
        Command::SetPipeline(PipelineId::TextOverlay),
        Command::SetVertexBuffer { slot: 0, buffer: BufferId::TextQuad },
        Command::SetBindGroup { index: 0, group: BindGroupId::Text },
        Command::Draw { vertex_count: QUAD_VERTEX_COUNT, instance_count: 1 },
        Command::EndRenderPass,
    ]
}

/// The second pass: clear the surface image to opaque black and draw the
/// post-processed offscreen target over all of it.
pub open spec fn surface_pass() -> Seq<Command> {
    seq![
        Command::BeginRenderPass { target: Attachment::Surface, clear: opaque_black() },
        Command::SetPipeline(PipelineId::PostProcess),
        Command::SetVertexBuffer { slot: 0, buffer: BufferId::Quad },
        Command::SetBindGroup { index: 0, group: BindGroupId::Uniforms },
        Command::SetBindGroup { index: 1, group: BindGroupId::Offscreen },
        Command::Draw { vertex_count: QUAD_VERTEX_COUNT, instance_count: 1 },
        Command::EndRenderPass,
    ]
}

impl StateView {
    /// Size of the surface in pixels.
    pub open spec fn surface_size(self) -> (u32, u32) {
        (self.config.width, self.config.height)
    }

    /// Size of the text bitmap in pixels.
    pub open spec fn text_size(self) -> (u32, u32) {
        (self.text_texture.size.width, self.text_texture.size.height)
    }

    /// What holds of a composer at all times.
    ///
    /// The offscreen target is exactly as large as the surface. A
    /// configured surface has no empty dimension. The text texture is
    /// what the bitmap was uploaded to, and the text quad keeps the
    /// bitmap's footprint on screen constant. The three pipelines are
    /// those of the three passes, the last one built for the format of
    /// the surface.
    pub open spec fn inv(self) -> bool {
        &&& self.back_texture == back_texture_descriptor(self.surface_size())
        &&& self.is_surface_configured ==> self.config.width > 0 && self.config.height > 0
        &&& self.text_texture == text_texture_descriptor(self.text_size())
        &&& self.text_vertex_buffer == text_quad(self.text_size(), self.surface_size())
        &&& self.pipeline == pipeline_view(
            PipelineId::Effect,
            self.pipeline.shader_code,
            self.config.format,
        )
        &&& self.pipeline_text == pipeline_view(
            PipelineId::TextOverlay,
            self.pipeline_text.shader_code,
            self.config.format,
        )
        &&& self.pipeline_post == pipeline_view(
            PipelineId::PostProcess,
            self.pipeline_post.shader_code,
            self.config.format,
        )
    }

    /// The composer right after start-up, before the surface is
    /// configured: everything is sized to the window as it was found, and
    /// the clock reads zero.
    pub open spec fn initial(
        config: SurfaceConfiguration,
        text_size: (u32, u32),
        effect: Seq<char>,
        text_overlay: Seq<char>,
        post_process: Seq<char>,
    ) -> StateView {
        let size = (config.width, config.height);
        StateView {
            config,
            is_surface_configured: false,
            pipeline: pipeline_view(PipelineId::Effect, effect, config.format),
            pipeline_post: pipeline_view(PipelineId::PostProcess, post_process, config.format),
            pipeline_text: pipeline_view(PipelineId::TextOverlay, text_overlay, config.format),
            text_vertex_buffer: text_quad(text_size, size),
            uniform_buffer: uniforms_at(Elapsed { secs: 0, subsec_nanos: 0 }, size),
            back_texture: back_texture_descriptor(size),
            text_texture: text_texture_descriptor(text_size),
        }
    }

    /// The composer after the window was resized to `width` by `height`
    /// pixels. A size with an empty dimension changes nothing.
    pub open spec fn resized(self, width: u32, height: u32) -> StateView {
        if width > 0 && height > 0 {
            StateView {
                config: SurfaceConfiguration { width, height, ..self.config },
                is_surface_configured: true,
                back_texture: back_texture_descriptor((width, height)),
                text_vertex_buffer: text_quad(self.text_size(), (width, height)),
                ..self
            }
        } else {
            self
        }
    }

    /// What the host does when the window was resized to `width` by
    /// `height` pixels: configure the surface, replace the offscreen
    /// target by one of the new size, and rescale the text quad. For a
    /// size with an empty dimension it does nothing.
    pub open spec fn resize_plan(self, width: u32, height: u32) -> Seq<Command> {
        if width > 0 && height > 0 {
            seq![
                Command::ConfigureSurface(self.resized(width, height).config),
                Command::DestroyTexture(TextureId::Offscreen),
                Command::CreateOffscreenTarget { width, height },
                Command::WriteTextQuad(self.resized(width, height).text_vertex_buffer),
            ]
        } else {
            Seq::empty()
        }
    }

    /// The composer after a draw at `time`. Before the surface is
    /// configured a draw changes nothing.
    pub open spec fn drawn(self, time: Elapsed) -> StateView {
        if self.is_surface_configured {
            StateView { uniform_buffer: uniforms_at(time, self.surface_size()), ..self }
        } else {
            self
        }
    }

    /// What the host does to draw a frame at `time`.
    ///
    /// Before the surface is configured it does nothing. After that it
    /// updates the uniforms and acquires the surface image; renders effect
    /// and text into the offscreen target; renders the offscreen target
    /// onto the surface image; submits both passes as one batch and
    /// presents; then paces the loop. If the surface image cannot be
    /// acquired, nothing is rendered.
    ///
    /// The request for the next redraw is no part of the frame: whoever
    /// answers the redraw request adds it, whatever became of the frame.
    pub open spec fn frame_plan(self, time: Elapsed) -> Seq<Command> {
        if self.is_surface_configured {
            seq![
                Command::WriteUniforms(uniforms_at(time, self.surface_size())),
                Command::AcquireSurface,
            ] + offscreen_pass() + surface_pass() + seq![
                Command::Submit,
                Command::Present,
                Command::Pace,
            ]
        } else {
            Seq::empty()
        }
    }
}

/// A composer starts out with its invariant in place and its surface
/// unconfigured.
pub proof fn lemma_initial_state(
    config: SurfaceConfiguration,
    text_size: (u32, u32),
    effect: Seq<char>,
    text_overlay: Seq<char>,
    post_process: Seq<char>,
)
    ensures
        StateView::initial(config, text_size, effect, text_overlay, post_process).inv(),
        !StateView::initial(
            config,
            text_size,
            effect,
            text_overlay,
            post_process,
        ).is_surface_configured,
        StateView::initial(config, text_size, effect, text_overlay, post_process).text_size()
            == text_size,
{
}

/// Neither a resize nor a draw breaks the invariant: in every state that a
/// composer can reach, the offscreen target is as large as the surface.
pub proof fn lemma_invariant_is_kept(state: StateView, width: u32, height: u32, time: Elapsed)
    requires
        state.inv(),
    ensures
        state.resized(width, height).inv(),
        state.drawn(time).inv(),
        state.resized(width, height).back_texture.size.width == state.resized(
            width,
            height,
        ).config.width,
        state.resized(width, height).back_texture.size.height == state.resized(
            width,
            height,
        ).config.height,
{
}

/// After a resize to a size without empty dimension, the surface is
/// configured, the offscreen target has exactly that size, and the next
/// frame begins by writing the quotient of width and height as aspect
/// ratio.
pub proof fn lemma_resize_sizes_target_and_aspect(
    state: StateView,
    width: u32,
    height: u32,
    time: Elapsed,
)
    requires
        width > 0,
        height > 0,
    ensures
        state.resized(width, height).is_surface_configured,
        state.resized(width, height).surface_size() == (width, height),
        state.resized(width, height).back_texture.size == (Extent3d {
            width,
            height,
            depth_or_array_layers: 1,
        }),
        state.resize_plan(width, height).len() == 4,
        state.resize_plan(width, height)[2] == (Command::CreateOffscreenTarget { width, height }),
        state.resized(width, height).frame_plan(time)[0] == Command::WriteUniforms(
            Uniforms { time, aspect: Ratio { num: width, den: height } },
        ),
        state.resized(width, height).drawn(time).uniform_buffer.aspect == (Ratio {
            num: width,
            den: height,
        }),
{
}

/// A resize to a size with an empty dimension is ignored: the composer
/// stays exactly as it is, and nothing is configured, destroyed or
/// allocated.
pub proof fn lemma_empty_resize_is_ignored(state: StateView, width: u32, height: u32)
    requires
        width == 0 || height == 0,
    ensures
        state.resized(width, height) == state,
        state.resize_plan(width, height) == Seq::<Command>::empty(),
{
}

/// A resize never touches the text texture, and it leaves the text quad
/// with the half-extent of bitmap width over window width by bitmap height
/// over window height.
pub proof fn lemma_text_quad_keeps_footprint(state: StateView, width: u32, height: u32)
    requires
        width > 0,
        height > 0,
    ensures
        state.resized(width, height).text_texture == state.text_texture,
        state.resized(width, height).text_vertex_buffer.half_width == (Ratio {
            num: state.text_size().0,
            den: width,
        }),
        state.resized(width, height).text_vertex_buffer.half_height == (Ratio {
            num: state.text_size().1,
            den: height,
        }),
        state.resize_plan(width, height)[3] == Command::WriteTextQuad(
            text_quad(state.text_size(), (width, height)),
        ),
{
}

/// A draw before the surface is configured plans nothing and changes
/// nothing.
pub proof fn lemma_unconfigured_draw_is_empty(state: StateView, time: Elapsed)
    requires
        !state.is_surface_configured,
    ensures
        state.frame_plan(time) == Seq::<Command>::empty(),
        state.drawn(time) == state,
{
}

/// A frame on a configured surface is one fixed sequence of commands: the
/// uniforms, the acquisition, the offscreen pass with effect then text,
/// the surface pass with post-processing, one submission, one
/// presentation and the pause.
pub proof fn lemma_frame_plan_order(state: StateView, time: Elapsed)
    requires
        state.is_surface_configured,
    ensures
        state.frame_plan(time).len() == 22,
        state.frame_plan(time)[1] == Command::AcquireSurface,
        state.frame_plan(time).subrange(2, 12) == offscreen_pass(),
        state.frame_plan(time).subrange(12, 19) == surface_pass(),
        state.frame_plan(time)[3] == Command::SetPipeline(PipelineId::Effect),
        state.frame_plan(time)[7] == Command::SetPipeline(PipelineId::TextOverlay),
        state.frame_plan(time)[13] == Command::SetPipeline(PipelineId::PostProcess),
        state.frame_plan(time)[19] == Command::Submit,
        state.frame_plan(time)[20] == Command::Present,
        state.frame_plan(time)[21] == Command::Pace,
        forall|i: int|
            0 <= i < 22 ==> #[trigger] state.frame_plan(time)[i] != Command::RequestRedraw,
{
    let plan = state.frame_plan(time);
    assert(plan.subrange(2, 12) =~= offscreen_pass());
    assert(plan.subrange(12, 19) =~= surface_pass());
}

/// The state of a frame composer.
#[derive(Clone, Debug, PartialEq, Eq)]
pub struct State {
    config: SurfaceConfiguration,
    is_surface_configured: bool,
    pipeline: RenderPipelineDescriptor,
    pipeline_post: RenderPipelineDescriptor,
    pipeline_text: RenderPipelineDescriptor,
    text_vertex_buffer: Quad,
    uniform_buffer: Uniforms,
    back_texture: TextureDescriptor,
    text_texture: TextureDescriptor,
}

impl View for State {
    type V = StateView;

    closed spec fn view(&self) -> StateView {
        StateView {
            config: self.config,
            is_surface_configured: self.is_surface_configured,
            pipeline: self.pipeline@,
            pipeline_post: self.pipeline_post@,
            pipeline_text: self.pipeline_text@,
            text_vertex_buffer: self.text_vertex_buffer,
            uniform_buffer: self.uniform_buffer,
            back_texture: self.back_texture,
            text_texture: self.text_texture,
        }
    }
}

impl State {
    /// Sets up a composer for a window of `window_size` pixels whose
    /// surface has the capabilities `capabilities`, showing a text bitmap
    /// of `text_size` pixels with the shaders `shaders`.
    ///
    /// Fails exactly when the surface cannot be configured at all.
    pub fn new(
        window_size: (u32, u32),
        capabilities: &SurfaceCapabilities,
        text_size: (u32, u32),
        shaders: Shaders,
    ) -> (made: Result<State, InitError>)
        ensures
            match made {
                Ok(state) => {
                    &&& initial_configuration(
                        capabilities.formats@,
                        capabilities.present_modes@,
                        capabilities.alpha_modes@,
                        window_size,
                    ) == Ok::<SurfaceConfiguration, InitError>(state@.config)
                    &&& state@ == StateView::initial(
                        state@.config,
                        text_size,
                        shaders.effect@,
                        shaders.text_overlay@,
                        shaders.post_process@,
                    )
                    &&& state@.inv()
                },
                Err(error) => initial_configuration(
                    capabilities.formats@,
                    capabilities.present_modes@,
                    capabilities.alpha_modes@,
                    window_size,
                ) == Err::<SurfaceConfiguration, InitError>(error),
            },
    {
        let config = match SurfaceConfiguration::initial(capabilities, window_size) {
            Ok(config) => config,
            Err(error) => {
                return Err(error);
            },
        };
        let uniform_buffer = Uniforms {
            time: Elapsed { secs: 0, subsec_nanos: 0 },
            aspect: Ratio { num: config.width, den: config.height },
        };
        let text_vertex_buffer = Quad::for_text(text_size, window_size);
        let text_texture = TextureId::Text.descriptor(text_size);
        let back_texture = get_back_texture(window_size).texture;

        let pipeline = PipelineBuilder::new(back_texture.format, shaders.effect).with_buffer(
            Vertex::desc(),
        ).with_bind_group(uniform_bind_group_layout()).build();
        let pipeline_text = PipelineBuilder::new(
            back_texture.format,
            shaders.text_overlay,
        ).with_buffer(Vertex::desc()).with_bind_group(texture_bind_group_layout()).with_blending(
            BlendState::inverted_highlight(),
        ).build();
        let pipeline_post = PipelineBuilder::new(
            TargetFormat::Surface(config.format),
            shaders.post_process,
        ).with_buffer(Vertex::desc()).with_bind_group(uniform_bind_group_layout()).with_bind_group(
            texture_bind_group_layout(),
        ).build();

        Ok(
            State {
                config,
                is_surface_configured: false,
                pipeline,
                pipeline_post,
                pipeline_text,
                text_vertex_buffer,
                uniform_buffer,
                back_texture,
                text_texture,
            },
        )
    }

    /// Handles a resize of the window to `w` by `h` pixels and returns
    /// what the host has to do for it.
    ///
    /// A size with an empty dimension is ignored: the composer stays as it
    /// is and the plan is empty. Any other size becomes the size of the
    /// surface and of the offscreen target, and the surface counts as
    /// configured from then on.
    pub fn on_resize(&mut self, w: u32, h: u32) -> (plan: Vec<Command>)
        ensures
            final(self)@ == old(self)@.resized(w, h),
            plan@ == old(self)@.resize_plan(w, h),
            old(self)@.inv() ==> final(self)@.inv(),
    {
        let mut plan: Vec<Command> = Vec::new();
        if w > 0 && h > 0 {
            self.config.width = w;
            self.config.height = h;
            plan.push(Command::ConfigureSurface(self.config));
            self.is_surface_configured = true;

            plan.push(Command::DestroyTexture(TextureId::Offscreen));
            let target = get_back_texture((w, h));
            self.back_texture = target.texture;
            plan.push(Command::CreateOffscreenTarget { width: w, height: h });

            let text_size = (self.text_texture.size.width, self.text_texture.size.height);
            self.text_vertex_buffer = Quad::for_text(text_size, (w, h));
            plan.push(Command::WriteTextQuad(self.text_vertex_buffer));
        }
        assert(plan@ =~= old(self)@.resize_plan(w, h));
        plan
    }

    /// Draws a frame at `elapsed` after the composer's clock started and
    /// returns what the host has to do for it.
    ///
    /// Before the surface is configured the plan is empty and the draw
    /// counts as done.
    pub fn on_draw(&mut self, elapsed: Elapsed) -> (plan: Vec<Command>)
        ensures
            final(self)@ == old(self)@.drawn(elapsed),
            plan@ == old(self)@.frame_plan(elapsed),
            old(self)@.inv() ==> final(self)@.inv(),
    {
        let mut plan: Vec<Command> = Vec::new();
        if !self.is_surface_configured {
            assert(plan@ =~= old(self)@.frame_plan(elapsed));
            return plan;
        }
        let black = Rgba { r: 0, g: 0, b: 0, a: 255 };

        self.uniform_buffer = Uniforms {
            time: elapsed,
            aspect: Ratio { num: self.config.width, den: self.config.height },
        };
        plan.push(Command::WriteUniforms(self.uniform_buffer));
        plan.push(Command::AcquireSurface);

        plan.push(Command::BeginRenderPass { target: Attachment::Offscreen, clear: black });
        plan.push(Command::SetPipeline(PipelineId::Effect));
        plan.push(Command::SetVertexBuffer { slot: 0, buffer: BufferId::Quad });
        plan.push(Command::SetBindGroup { index: 0, group: BindGroupId::Uniforms });
        plan.push(Command::Draw { vertex_count: QUAD_VERTEX_COUNT, instance_count: 1 });
        plan.push(Command::SetPipeline(PipelineId::TextOverlay));
        plan.push(Command::SetVertexBuffer { slot: 0, buffer: BufferId::TextQuad });
        plan.push(Command::SetBindGroup { index: 0, group: BindGroupId::Text });
        plan.push(Command::Draw { vertex_count: QUAD_VERTEX_COUNT, instance_count: 1 });
        plan.push(Command::EndRenderPass);

        plan.push(Command::BeginRenderPass { target: Attachment::Surface, clear: black });
        plan.push(Command::SetPipeline(PipelineId::PostProcess));
        plan.push(Command::SetVertexBuffer { slot: 0, buffer: BufferId::Quad });
        plan.push(Command::SetBindGroup { index: 0, group: BindGroupId::Uniforms });
        plan.push(Command::SetBindGroup { index: 1, group: BindGroupId::Offscreen });
        plan.push(Command::Draw { vertex_count: QUAD_VERTEX_COUNT, instance_count: 1 });
        plan.push(Command::EndRenderPass);

        plan.push(Command::Submit);
        plan.push(Command::Present);
        plan.push(Command::Pace);
        assert(plan@ =~= old(self)@.frame_plan(elapsed));
        plan
    }

    /// Returns the configuration of the surface.
    pub fn config(&self) -> (config: SurfaceConfiguration)
        ensures
            config == self@.config,
    {
        self.config
    }

    /// Returns whether the surface has been configured since start-up.
    pub fn is_surface_configured(&self) -> (configured: bool)
        ensures
            configured == self@.is_surface_configured,
    {
        self.is_surface_configured
    }

    /// Returns what the pipeline `id` is created from.
    pub fn pipeline(&self, id: PipelineId) -> (pipeline: &RenderPipelineDescriptor)
        ensures
            pipeline@ == match id {
                PipelineId::Effect => self@.pipeline,
                PipelineId::TextOverlay => self@.pipeline_text,
                PipelineId::PostProcess => self@.pipeline_post,
            },
    {
        match id {
            PipelineId::Effect => &self.pipeline,
            PipelineId::TextOverlay => &self.pipeline_text,
            PipelineId::PostProcess => &self.pipeline_post,
        }
    }

    /// Returns the quad last written to the text vertex buffer.
    pub fn text_vertex_buffer(&self) -> (quad: Quad)
        ensures
            quad == self@.text_vertex_buffer,
    {
        self.text_vertex_buffer
    }

    /// Returns the block last written to the uniform buffer.
    pub fn uniform_buffer(&self) -> (uniforms: Uniforms)
        ensures
            uniforms == self@.uniform_buffer,
    {
        self.uniform_buffer
    }

    /// Returns what the offscreen target was allocated from.
    pub fn back_texture(&self) -> (texture: TextureDescriptor)
        ensures
            texture == self@.back_texture,
    {
        self.back_texture
    }

    /// Returns what the text texture was allocated from.
    pub fn text_texture(&self) -> (texture: TextureDescriptor)
        ensures
            texture == self@.text_texture,
    {
        self.text_texture
    }
}

} // verus!
