//! A model of the host that carries out the plans of the composer, and the
//! proof that every plan of the composer is one that the host can carry
//! out, and that leaves the host as the composer has recorded it.
//!
//! The model follows the rules of the GPU as far as the plans can break
//! them. The surface is configured with a size without empty dimension,
//! and configured before its image is acquired. A texture is destroyed
//! once, and not used after that. Render passes do not nest. A pipeline
//! is bound only in a pass whose target it was built for. A draw needs a
//! pipeline, a vertex buffer, and in every slot that the pipeline reads a
//! bind group of the layout expected there. A texture is sampled neither
//! in the pass that renders into it nor before anything was rendered into
//! it. Passes are submitted after they have ended, and the surface image
//! is presented after the pass that fills it has been submitted.

use crate::event::{
    after_event, after_recovery, event_plan, lemma_redraw_is_requested_once, recovery_plan,
    remedy, SurfaceError, WindowEvent,
};
use crate::geometry::{Quad, QUAD_VERTEX_COUNT};
use crate::pacer::Elapsed;
use crate::plan::{
    attachment_of, pipeline_layouts, requests_redraw_last, Attachment, Command, PipelineId,
    Uniforms,
};
use crate::resource::{bind_group_view, buffer_usages, BindGroupId, BufferId, TargetFormat};
use crate::state::{offscreen_pass, surface_pass, StateView};
use crate::surface::SurfaceConfiguration;
use vstd::prelude::*;

verus! {

/// What the host holds, and how far it has got with the frame in progress.
pub struct Host {
    /// The configuration of the surface, once it has one.
    pub surface: Option<SurfaceConfiguration>,
    /// Width and height of the offscreen target, unless it is destroyed.
    pub offscreen: Option<(u32, u32)>,
    /// The quad in the text vertex buffer.
    pub text_quad: Quad,
    /// The block in the uniform buffer.
    pub uniforms: Uniforms,
    /// Whether a surface image is acquired and not yet presented.
    pub acquired: bool,
    /// The target of the open render pass, if one is open.
    pub pass: Option<Attachment>,
    /// The pipeline bound in the open pass.
    pub pipeline: Option<PipelineId>,
    /// The vertex buffer bound to slot 0 in the open pass.
    pub vertex_buffer: Option<BufferId>,
    /// The bind group bound to each slot in the open pass.
    pub bind_groups: Map<int, BindGroupId>,
    /// Whether a pass of this frame has rendered into the offscreen target.
    pub offscreen_rendered: bool,
    /// Whether a pass of this frame has rendered into the surface image.
    pub surface_rendered: bool,
    /// Whether the passes of this frame have been submitted.
    pub submitted: bool,
}

impl Host {
    /// The host between two events, as a composer in state `state` has
    /// recorded it: no frame in progress, and every resource as it was
    /// last configured, allocated or written.
    pub open spec fn idle(state: StateView) -> Host {
        Host {
            surface: if state.is_surface_configured {
                Some(state.config)
            } else {
                None
            },
            offscreen: Some((state.back_texture.size.width, state.back_texture.size.height)),
            text_quad: state.text_vertex_buffer,
            uniforms: state.uniform_buffer,
            acquired: false,
            pass: None,
            pipeline: None,
            vertex_buffer: None,
            bind_groups: Map::empty(),
            offscreen_rendered: false,
            surface_rendered: false,
            submitted: false,
        }
    }

    /// Every slot that `pipeline` reads holds a bind group of the layout
    /// that the pipeline expects there.
    pub open spec fn bindings_fit(self, pipeline: PipelineId) -> bool {
        forall|slot: int|
            0 <= slot < pipeline_layouts(pipeline).len() ==> {
                &&& self.bind_groups.dom().contains(slot)
                &&& bind_group_view(#[trigger] self.bind_groups[slot]).layout == pipeline_layouts(
                    pipeline,
                )[slot]
            }
    }

    /// Whether the host can carry out `command` next.
    pub open spec fn accepts(self, command: Command) -> bool {
        match command {
            Command::ConfigureSurface(config) => {
                &&& self.pass is None
                &&& !self.acquired
                &&& config.width > 0
                &&& config.height > 0
            },
            Command::DestroyTexture(texture) => {
                &&& self.pass is None
                &&& texture is Offscreen
                &&& self.offscreen is Some
            },
            Command::CreateOffscreenTarget { width, height } => {
                &&& self.offscreen is None
                &&& width > 0
                &&& height > 0
            },
            Command::WriteTextQuad(quad) => true,
            Command::WriteUniforms(uniforms) => true,
            Command::AcquireSurface => self.surface is Some && !self.acquired,
            Command::BeginRenderPass { target, clear } => {
                &&& self.pass is None
                &&& target is Surface ==> self.acquired
                &&& target is Offscreen ==> self.offscreen is Some
            },
            Command::SetPipeline(pipeline) => self.pass == Some(attachment_of(pipeline)),
            Command::SetVertexBuffer { slot, buffer } => {
                &&& self.pass is Some
                &&& slot == 0
                &&& buffer_usages(buffer).vertex
            },
            Command::SetBindGroup { index, group } => {
                &&& self.pass is Some
                &&& group is Offscreen ==> {
                    &&& self.pass == Some(Attachment::Surface)
                    &&& self.offscreen is Some
                    &&& self.offscreen_rendered
                }
            },
            Command::Draw { vertex_count, instance_count } => {
                &&& self.pass is Some
                &&& self.vertex_buffer is Some
                &&& vertex_count <= QUAD_VERTEX_COUNT
                &&& self.pipeline matches Some(pipeline)
                &&& self.bindings_fit(pipeline)
            },
            Command::EndRenderPass => self.pass is Some,
            Command::Submit => {
                &&& self.pass is None
                &&& !self.submitted
                &&& self.offscreen_rendered || self.surface_rendered
            },
            Command::Present => {
                &&& self.pass is None
                &&& self.acquired
                &&& self.surface_rendered
                &&& self.submitted
            },
            Command::Pace => self.pass is None,
            Command::RequestRedraw => self.pass is None,
            Command::Exit => self.pass is None,
            Command::LogError => self.pass is None,
        }
    }

    /// The host once it has carried out `command`.
    pub open spec fn advanced(self, command: Command) -> Host {
        match command {
            Command::ConfigureSurface(config) => Host { surface: Some(config), ..self },
            Command::DestroyTexture(texture) => Host { offscreen: None, ..self },
            Command::CreateOffscreenTarget { width, height } => Host {
                offscreen: Some((width, height)),
                ..self
            },
            Command::WriteTextQuad(quad) => Host { text_quad: quad, ..self },
            Command::WriteUniforms(uniforms) => Host { uniforms, ..self },
            Command::AcquireSurface => Host { acquired: true, ..self },
            Command::BeginRenderPass { target, clear } => Host { pass: Some(target), ..self },
            Command::SetPipeline(pipeline) => Host { pipeline: Some(pipeline), ..self },
            Command::SetVertexBuffer { slot, buffer } => Host {
                vertex_buffer: Some(buffer),
                ..self
            },
            Command::SetBindGroup { index, group } => Host {
                bind_groups: self.bind_groups.insert(index as int, group),
                ..self
            },
            Command::Draw { vertex_count, instance_count } => self,
            Command::EndRenderPass => Host {
                pass: None,
                pipeline: None,
                vertex_buffer: None,
                bind_groups: Map::empty(),
                offscreen_rendered: self.offscreen_rendered || self.pass == Some(
                    Attachment::Offscreen,
                ),
                surface_rendered: self.surface_rendered || self.pass == Some(Attachment::Surface),
                ..self
            },
            Command::Submit => Host { submitted: true, ..self },
            Command::Present => Host {
                acquired: false,
                offscreen_rendered: false,
                surface_rendered: false,
                submitted: false,
                ..self
            },
            Command::Pace => self,
            Command::RequestRedraw => self,
            Command::Exit => self,
            Command::LogError => self,
        }
    }

    /// The host once it has carried out the first `count` commands of
    /// `plan`, or `None` if it could not carry out one of them when its
    /// turn came.
    pub open spec fn after(self, plan: Seq<Command>, count: nat) -> Option<Host>
        decreases count,
    {
        if count == 0 {
            Some(self)
        } else {
            match self.after(plan, (count - 1) as nat) {
                Some(host) => if count <= plan.len() && host.accepts(plan[count - 1]) {
                    Some(host.advanced(plan[count - 1]))
                } else {
                    None
                },
                None => None,
            }
        }
    }

    /// The host once it has carried out all of `plan`.
    pub open spec fn after_all(self, plan: Seq<Command>) -> Option<Host> {
        self.after(plan, plan.len())
    }
}

/// How the host gets on with the first commands of a plan does not depend
/// on the commands that follow them.
pub proof fn lemma_prefix_is_carried_out_alike(
    host: Host,
    plan: Seq<Command>,
    rest: Seq<Command>,
    count: nat,
)
    requires
        count <= plan.len(),
    ensures
        host.after(plan + rest, count) == host.after(plan, count),
    decreases count,
{
    if count > 0 {
        lemma_prefix_is_carried_out_alike(host, plan, rest, (count - 1) as nat);
        assert((plan + rest)[count - 1] == plan[count - 1]);
    }
}

/// Plans compose: to carry out the first commands of `second` after all of
/// `first` is to carry out that many more commands of the two in a row.
pub proof fn lemma_plans_compose_up_to(
    host: Host,
    first: Seq<Command>,
    second: Seq<Command>,
    count: nat,
)
    requires
        count <= second.len(),
    ensures
        host.after(first + second, first.len() + count) == match host.after_all(first) {
            Some(between) => between.after(second, count),
            None => None,
        },
    decreases count,
{
    if count == 0 {
        lemma_prefix_is_carried_out_alike(host, first, second, first.len());
    } else {
        lemma_plans_compose_up_to(host, first, second, (count - 1) as nat);
        assert((first + second)[first.len() + count - 1] == second[count - 1]);
    }
}

/// Plans compose: the host can carry out two plans in a row exactly when
/// it can carry out the first and, from where that leaves it, the second.
pub proof fn lemma_plans_compose(host: Host, first: Seq<Command>, second: Seq<Command>)
    ensures
        host.after_all(first + second) == match host.after_all(first) {
            Some(between) => between.after_all(second),
            None => None,
        },
{
    lemma_plans_compose_up_to(host, first, second, second.len());
}

/// A host with no pass open can be asked for the next redraw after any
/// plan that it can carry out, and is left as that plan left it.
pub proof fn lemma_redraw_request_is_carried_out(host: Host, plan: Seq<Command>, done: Host)
    requires
        host.after_all(plan) == Some(done),
        done.pass is None,
    ensures
        host.after_all(plan.push(Command::RequestRedraw)) == Some(done),
{
    let request = seq![Command::RequestRedraw];
    lemma_plans_compose(host, plan, request);
    assert(plan.push(Command::RequestRedraw) =~= plan + request);
    assert(done.after(request, 0) == Some(done));
    assert(done.after(request, 1) == Some(done));
}

/// While the invariant of the composer holds, the host's offscreen target
/// is alive and exactly as large as the surface, a configured surface has
/// no empty dimension, and the post-processing pipeline is built for the
/// format that the surface is configured with. A resize keeps that format.
pub proof fn lemma_idle_host(state: StateView, width: u32, height: u32)
    requires
        state.inv(),
    ensures
        Host::idle(state).offscreen == Some(state.surface_size()),
        Host::idle(state).surface matches Some(config) ==> {
            &&& config.width > 0
            &&& config.height > 0
            &&& Host::idle(state).offscreen == Some((config.width, config.height))
            &&& state.pipeline_post.target.format == TargetFormat::Surface(config.format)
        },
        state.resized(width, height).config.format == state.config.format,
        state.resized(width, height).pipeline_post == state.pipeline_post,
{
}

/// The host can carry out the plan of a resize, and is left as the
/// composer has recorded it: with a size without empty dimension the
/// surface is configured for that size, the old offscreen target is
/// destroyed before the new one of that size is allocated, and the text
/// quad is rescaled; with any other size the host is not touched.
pub proof fn lemma_resize_is_carried_out(state: StateView, width: u32, height: u32)
    ensures
        Host::idle(state).after_all(state.resize_plan(width, height)) == Some(
            Host::idle(state.resized(width, height)),
        ),
{
    let plan = state.resize_plan(width, height);
    let h0 = Host::idle(state);
    assert(h0.after(plan, 0) == Some(h0));
    if width > 0 && height > 0 {
        let after = state.resized(width, height);
        let h1 = Host { surface: Some(after.config), ..h0 };
        assert(h0.after(plan, 1) == Some(h1));
        let h2 = Host { offscreen: None, ..h1 };
        assert(h0.after(plan, 2) == Some(h2));
        let h3 = Host { offscreen: Some((width, height)), ..h2 };
        assert(h0.after(plan, 3) == Some(h3));
        let h4 = Host { text_quad: after.text_vertex_buffer, ..h3 };
        assert(h0.after(plan, 4) == Some(h4));
        assert(h4 == Host::idle(after));
    }
}

/// The host can carry out a frame plan up to the end of the first pass. By
/// then the uniforms of this frame are written, the surface image is
/// acquired, effect and text have been rendered into the offscreen
/// target, and nothing has been submitted.
pub proof fn lemma_offscreen_pass_is_carried_out(state: StateView, time: Elapsed)
    requires
        state.is_surface_configured,
    ensures
        Host::idle(state).after(state.frame_plan(time), 1) == Some(Host::idle(state.drawn(time))),
        Host::idle(state).after(state.frame_plan(time), 12) == Some(
            Host { acquired: true, offscreen_rendered: true, ..Host::idle(state.drawn(time)) },
        ),
{
    let plan = state.frame_plan(time);
    let pass = offscreen_pass();
    let start = Host::idle(state);
    assert(start.after(plan, 0) == Some(start));
    let h1 = Host::idle(state.drawn(time));
    assert(plan[0] == Command::WriteUniforms(state.drawn(time).uniform_buffer));
    assert(start.after(plan, 1) == Some(h1));
    let h2 = Host { acquired: true, ..h1 };
    assert(plan[1] == Command::AcquireSurface);
    assert(start.after(plan, 2) == Some(h2));
    let h3 = Host { pass: Some(Attachment::Offscreen), ..h2 };
    assert(plan[2] == pass[0]);
    assert(start.after(plan, 3) == Some(h3));
    let h4 = Host { pipeline: Some(PipelineId::Effect), ..h3 };
    assert(plan[3] == pass[1]);
    assert(start.after(plan, 4) == Some(h4));
    let h5 = Host { vertex_buffer: Some(BufferId::Quad), ..h4 };
    assert(plan[4] == pass[2]);
    assert(start.after(plan, 5) == Some(h5));
    let h6 = Host {
        bind_groups: Map::<int, BindGroupId>::empty().insert(0, BindGroupId::Uniforms),
        ..h5
    };
    assert(plan[5] == pass[3]);
    assert(start.after(plan, 6) == Some(h6));
    assert(plan[6] == pass[4]);
    assert(h6.bindings_fit(PipelineId::Effect));
    assert(start.after(plan, 7) == Some(h6));
    let h8 = Host { pipeline: Some(PipelineId::TextOverlay), ..h6 };
    assert(plan[7] == pass[5]);
    assert(start.after(plan, 8) == Some(h8));
    let h9 = Host { vertex_buffer: Some(BufferId::TextQuad), ..h8 };
    assert(plan[8] == pass[6]);
    assert(start.after(plan, 9) == Some(h9));
    let h10 = Host { bind_groups: h9.bind_groups.insert(0, BindGroupId::Text), ..h9 };
    assert(plan[9] == pass[7]);
    assert(start.after(plan, 10) == Some(h10));
    assert(plan[10] == pass[8]);
    assert(h10.bindings_fit(PipelineId::TextOverlay));
    assert(start.after(plan, 11) == Some(h10));
    let h12 = Host { acquired: true, offscreen_rendered: true, ..h1 };
    assert(plan[11] == pass[9]);
    assert(start.after(plan, 12) == Some(h12));
}

/// The host can carry out a frame plan up to the submission. By then the
/// second pass has rendered the offscreen target onto the surface image,
/// after the first pass and in the same submission.
pub proof fn lemma_surface_pass_is_carried_out(state: StateView, time: Elapsed)
    requires
        state.is_surface_configured,
    ensures
        Host::idle(state).after(state.frame_plan(time), 20) == Some(
            Host {
                acquired: true,
                offscreen_rendered: true,
                surface_rendered: true,
                submitted: true,
                ..Host::idle(state.drawn(time))
            },
        ),
{
    let plan = state.frame_plan(time);
    let pass = surface_pass();
    let start = Host::idle(state);
    lemma_offscreen_pass_is_carried_out(state, time);
    let h12 = Host { acquired: true, offscreen_rendered: true, ..Host::idle(state.drawn(time)) };
    let h13 = Host { pass: Some(Attachment::Surface), ..h12 };
    assert(plan[12] == pass[0]);
    assert(start.after(plan, 13) == Some(h13));
    let h14 = Host { pipeline: Some(PipelineId::PostProcess), ..h13 };
    assert(plan[13] == pass[1]);
    assert(start.after(plan, 14) == Some(h14));
    let h15 = Host { vertex_buffer: Some(BufferId::Quad), ..h14 };
    assert(plan[14] == pass[2]);
    assert(start.after(plan, 15) == Some(h15));
    let h16 = Host {
        bind_groups: Map::<int, BindGroupId>::empty().insert(0, BindGroupId::Uniforms),
        ..h15
    };
    assert(plan[15] == pass[3]);
    assert(start.after(plan, 16) == Some(h16));
    let h17 = Host { bind_groups: h16.bind_groups.insert(1, BindGroupId::Offscreen), ..h16 };
    assert(plan[16] == pass[4]);
    assert(start.after(plan, 17) == Some(h17));
    assert(plan[17] == pass[5]);
    assert(h17.bindings_fit(PipelineId::PostProcess));
    assert(start.after(plan, 18) == Some(h17));
    let h19 = Host { surface_rendered: true, ..h12 };
    assert(plan[18] == pass[6]);
    assert(start.after(plan, 19) == Some(h19));
    let h20 = Host { submitted: true, ..h19 };
    assert(plan[19] == Command::Submit);
    assert(start.after(plan, 20) == Some(h20));
}

/// The host can carry out the plan of a frame, and is left as the
/// composer has recorded it, with the frame presented and the loop paced.
/// Before the surface is configured the host is not touched.
pub proof fn lemma_frame_is_carried_out(state: StateView, time: Elapsed)
    ensures
        Host::idle(state).after_all(state.frame_plan(time)) == Some(
            Host::idle(state.drawn(time)),
        ),
{
    let plan = state.frame_plan(time);
    let start = Host::idle(state);
    if state.is_surface_configured {
        lemma_surface_pass_is_carried_out(state, time);
        let done = Host::idle(state.drawn(time));
        assert(plan[20] == Command::Present);
        assert(start.after(plan, 21) == Some(done));
        assert(plan[21] == Command::Pace);
        assert(start.after(plan, 22) == Some(done));
        assert(plan.len() == 22);
    } else {
        assert(start.after(plan, 0) == Some(start));
    }
}

/// Whatever the window reports, the host can carry out the plan that
/// answers it, and is left as the composer has recorded it. A redraw
/// request is answered by the frame and then by the request for the next
/// redraw, in every state.
pub proof fn lemma_event_is_carried_out(state: StateView, event: WindowEvent)
    ensures
        Host::idle(state).after_all(event_plan(state, event)) == Some(
            Host::idle(after_event(state, event)),
        ),
{
    let plan = event_plan(state, event);
    let start = Host::idle(state);
    match event {
        WindowEvent::CloseRequested => {
            assert(start.after(plan, 0) == Some(start));
            assert(start.after(plan, 1) == Some(start));
        },
        WindowEvent::Resized(width, height) => {
            lemma_resize_is_carried_out(state, width, height);
        },
        WindowEvent::RedrawRequested(time) => {
            lemma_frame_is_carried_out(state, time);
            lemma_redraw_request_is_carried_out(
                start,
                state.frame_plan(time),
                Host::idle(state.drawn(time)),
            );
        },
        WindowEvent::Other => {
            assert(start.after(plan, 0) == Some(start));
        },
    }
}

/// When the surface image could not be acquired, the host has carried out
/// the answer to the redraw request up to the acquisition, and the
/// composer's record of it is still right. From there the host can carry
/// out the recovery, which ends with the request for the next redraw, and
/// is left as the composer has recorded it.
pub proof fn lemma_recovery_is_carried_out(
    state: StateView,
    time: Elapsed,
    error: SurfaceError,
    window_size: (u32, u32),
)
    requires
        state.is_surface_configured,
    ensures
        event_plan(state, WindowEvent::RedrawRequested(time))[1] == Command::AcquireSurface,
        Host::idle(state).after(event_plan(state, WindowEvent::RedrawRequested(time)), 1) == Some(
            Host::idle(state.drawn(time)),
        ),
        Host::idle(state.drawn(time)).after_all(
            recovery_plan(state.drawn(time), error, window_size),
        ) == Some(Host::idle(after_recovery(state.drawn(time), error, window_size))),
        requests_redraw_last(recovery_plan(state.drawn(time), error, window_size)),
{
    lemma_offscreen_pass_is_carried_out(state, time);
    let frame = state.frame_plan(time);
    let request = seq![Command::RequestRedraw];
    assert(event_plan(state, WindowEvent::RedrawRequested(time)) =~= frame + request);
    lemma_prefix_is_carried_out_alike(Host::idle(state), frame, request, 1);

    let failed = state.drawn(time);
    let start = Host::idle(failed);
    let cure = remedy(failed, error, window_size);
    if error.is_transient() {
        lemma_resize_is_carried_out(failed, window_size.0, window_size.1);
    } else {
        assert(start.after(cure, 0) == Some(start));
        assert(start.after(cure, 1) == Some(start));
    }
    lemma_redraw_request_is_carried_out(
        start,
        cure,
        Host::idle(after_recovery(failed, error, window_size)),
    );
    lemma_redraw_is_requested_once(failed, time, error, window_size);
}

} // verus!
