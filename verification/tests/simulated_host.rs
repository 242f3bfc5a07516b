use frame_composer::event::{App, SurfaceError, WindowEvent};
use frame_composer::geometry::{Quad, Ratio};
use frame_composer::pacer::Elapsed;
use frame_composer::plan::{Attachment, Command, PipelineId, Shaders, Uniforms};
use frame_composer::resource::{BindGroupId, BufferId, TextureId};
use frame_composer::surface::SurfaceCapabilities;

/// A host without a GPU: it keeps what the commands tell it, refuses what a
/// GPU would refuse, and fails to acquire the surface image on demand.
struct SimulatedHost {
    window_size: (u32, u32),
    fail_next_acquisition: Option<SurfaceError>,
    configured: Vec<(u32, u32)>,
    offscreen: Option<(u32, u32)>,
    allocations: usize,
    text_quad: Option<Quad>,
    uniforms: Option<Uniforms>,
    acquired: bool,
    pass: Option<Attachment>,
    pipeline: Option<PipelineId>,
    vertex_buffer: Option<BufferId>,
    bind_groups: [Option<BindGroupId>; 2],
    recorded: Vec<PipelineId>,
    drawn: Vec<PipelineId>,
    submissions: Vec<Vec<PipelineId>>,
    presented: usize,
    paced: usize,
    redraw_requests: usize,
    exits: usize,
    logged: usize,
}

impl SimulatedHost {
    fn new(window_size: (u32, u32)) -> Self {
        SimulatedHost {
            window_size,
            fail_next_acquisition: None,
            configured: vec![],
            offscreen: Some(window_size),
            allocations: 0,
            text_quad: None,
            uniforms: None,
            acquired: false,
            pass: None,
            pipeline: None,
            vertex_buffer: None,
            bind_groups: [None, None],
            recorded: vec![],
            drawn: vec![],
            submissions: vec![],
            presented: 0,
            paced: 0,
            redraw_requests: 0,
            exits: 0,
            logged: 0,
        }
    }

    fn slots_of(pipeline: PipelineId) -> Vec<bool> {
        // For each slot that the pipeline reads, whether it takes a texture.
        match pipeline {
            PipelineId::Effect => vec![false],
            PipelineId::TextOverlay => vec![true],
            PipelineId::PostProcess => vec![false, true],
        }
    }

    fn run(&mut self, plan: &[Command]) -> Result<(), SurfaceError> {
        for command in plan {
            match *command {
                Command::ConfigureSurface(config) => {
                    assert!(config.width > 0 && config.height > 0);
                    assert!(self.pass.is_none() && !self.acquired);
                    self.configured.push((config.width, config.height));
                },
                Command::DestroyTexture(texture) => {
                    assert_eq!(texture, TextureId::Offscreen);
                    assert!(self.offscreen.take().is_some());
                },
                Command::CreateOffscreenTarget { width, height } => {
                    assert!(width > 0 && height > 0);
                    assert!(self.offscreen.is_none());
                    self.offscreen = Some((width, height));
                    self.allocations += 1;
                },
                Command::WriteTextQuad(quad) => self.text_quad = Some(quad),
                Command::WriteUniforms(uniforms) => self.uniforms = Some(uniforms),
                Command::AcquireSurface => {
                    assert!(!self.configured.is_empty() && !self.acquired);
                    if let Some(error) = self.fail_next_acquisition.take() {
                        return Err(error);
                    }
                    self.acquired = true;
                },
                Command::BeginRenderPass { target, clear } => {
                    assert!(self.pass.is_none());
                    assert_eq!((clear.r, clear.g, clear.b, clear.a), (0, 0, 0, 255));
                    match target {
                        Attachment::Offscreen => assert!(self.offscreen.is_some()),
                        Attachment::Surface => assert!(self.acquired),
                    }
                    self.pass = Some(target);
                },
                Command::SetPipeline(pipeline) => {
                    let target = match pipeline {
                        PipelineId::PostProcess => Attachment::Surface,
                        _ => Attachment::Offscreen,
                    };
                    assert_eq!(self.pass, Some(target));
                    self.pipeline = Some(pipeline);
                },
                Command::SetVertexBuffer { slot, buffer } => {
                    assert!(self.pass.is_some());
                    assert_eq!(slot, 0);
                    assert!(buffer.usage().vertex);
                    self.vertex_buffer = Some(buffer);
                },
                Command::SetBindGroup { index, group } => {
                    assert!(self.pass.is_some());
                    if group == BindGroupId::Offscreen {
                        assert_eq!(self.pass, Some(Attachment::Surface));
                        assert!(self.recorded.contains(&PipelineId::Effect));
                    }
                    self.bind_groups[index as usize] = Some(group);
                },
                Command::Draw { vertex_count, instance_count } => {
                    assert_eq!((vertex_count, instance_count), (4, 1));
                    assert!(self.vertex_buffer.is_some());
                    let pipeline = self.pipeline.expect("a pipeline is bound");
                    for (slot, takes_texture) in Self::slots_of(pipeline).into_iter().enumerate() {
                        let group = self.bind_groups[slot].expect("the slot is filled");
                        assert_eq!(group != BindGroupId::Uniforms, takes_texture);
                    }
                    self.drawn.push(pipeline);
                },
                Command::EndRenderPass => {
                    assert!(self.pass.take().is_some());
                    self.pipeline = None;
                    self.vertex_buffer = None;
                    self.bind_groups = [None, None];
                    self.recorded.append(&mut self.drawn);
                },
                Command::Submit => {
                    assert!(self.pass.is_none());
                    assert!(!self.recorded.is_empty());
                    let batch = std::mem::take(&mut self.recorded);
                    self.submissions.push(batch);
                },
                Command::Present => {
                    assert!(self.acquired);
                    assert!(self.submissions.last().unwrap().contains(&PipelineId::PostProcess));
                    self.acquired = false;
                    self.presented += 1;
                },
                Command::Pace => self.paced += 1,
                Command::RequestRedraw => self.redraw_requests += 1,
                Command::Exit => self.exits += 1,
                Command::LogError => self.logged += 1,
            }
        }
        Ok(())
    }

    /// One turn of the event loop.
    fn handle(&mut self, app: &mut App, event: WindowEvent) {
        let plan = app.window_event(event);
        if let Err(error) = self.run(&plan) {
            self.recorded.clear();
            let recovery = app.draw_failed(&error, self.window_size);
            self.run(&recovery).unwrap();
        }
    }
}

fn started(window_size: (u32, u32), text_size: (u32, u32)) -> (App, SimulatedHost) {
    let capabilities = SurfaceCapabilities {
        formats: vec![wgpu::TextureFormat::Bgra8UnormSrgb],
        present_modes: vec![wgpu::PresentMode::Fifo],
        alpha_modes: vec![wgpu::CompositeAlphaMode::Auto],
    };
    let shaders = Shaders {
        effect: String::from("effect"),
        text_overlay: String::from("text"),
        post_process: String::from("post"),
    };
    let mut app = App::default();
    app.resumed(window_size, &capabilities, text_size, shaders).unwrap();
    (app, SimulatedHost::new(window_size))
}

fn redraw(millis: u32) -> WindowEvent {
    WindowEvent::RedrawRequested(Elapsed { secs: 0, subsec_nanos: millis * 1_000_000 })
}

#[test]
fn simulated_draw_before_resize_submits_nothing() {
    let (mut app, mut host) = started((800, 600), (320, 96));
    host.handle(&mut app, redraw(16));
    host.handle(&mut app, WindowEvent::Resized(0, 600));
    host.handle(&mut app, redraw(32));
    assert!(host.submissions.is_empty());
    assert!(host.configured.is_empty());
    assert_eq!(host.allocations, 0);
    assert_eq!(host.presented, 0);
    assert_eq!(host.paced, 0);
    assert_eq!(host.redraw_requests, 2);
    assert_eq!(host.uniforms, None);
    assert_eq!(host.offscreen, Some((800, 600)));
}

#[test]
fn simulated_frame_at_800_by_600() {
    let (mut app, mut host) = started((800, 600), (320, 96));
    host.handle(&mut app, WindowEvent::Resized(800, 600));
    host.handle(&mut app, redraw(16));
    assert_eq!(
        host.submissions,
        vec![vec![PipelineId::Effect, PipelineId::TextOverlay, PipelineId::PostProcess]]
    );
    assert_eq!(host.presented, 1);
    assert_eq!(host.logged, 0);
    assert_eq!(host.paced, 1);
    assert_eq!(host.redraw_requests, 1);
    let uniforms = host.uniforms.unwrap();
    assert_eq!(uniforms.time, Elapsed { secs: 0, subsec_nanos: 16_000_000 });
    assert_eq!(uniforms.aspect, Ratio { num: 800, den: 600 });
    let aspect = (uniforms.aspect.num as f64 / uniforms.aspect.den as f64) as f32;
    assert!((aspect - 1.333).abs() < 0.001);
    assert_eq!(host.offscreen, Some((800, 600)));
}

#[test]
fn simulated_resizes_keep_target_and_surface_equal() {
    let (mut app, mut host) = started((800, 600), (320, 96));
    let sizes = [(800u32, 600u32), (0, 0), (1024, 768), (1024, 0), (5, 2000), (5, 2000), (0, 7)];
    let mut expected = (800, 600);
    let mut resizes = 0;
    for (step, (width, height)) in sizes.into_iter().enumerate() {
        host.window_size = (width, height);
        host.handle(&mut app, WindowEvent::Resized(width, height));
        if width > 0 && height > 0 {
            expected = (width, height);
            resizes += 1;
        }
        host.handle(&mut app, redraw(16 * step as u32));
        assert_eq!(host.offscreen, Some(expected));
        assert_eq!(host.configured.last(), Some(&expected));
        assert_eq!(host.configured.len(), resizes);
        assert_eq!(host.allocations, resizes);
        assert_eq!(host.uniforms.unwrap().aspect, Ratio { num: expected.0, den: expected.1 });
        assert_eq!(
            host.text_quad,
            Some(Quad {
                half_width: Ratio { num: 320, den: expected.0 },
                half_height: Ratio { num: 96, den: expected.1 },
            })
        );
        assert_eq!(host.presented, step + 1);
        let state = app.state().unwrap();
        assert_eq!((state.config().width, state.config().height), expected);
        assert_eq!(
            (state.back_texture().size.width, state.back_texture().size.height),
            expected
        );
        assert_eq!(Some(state.text_vertex_buffer()), host.text_quad);
        assert_eq!(Some(state.uniform_buffer()), host.uniforms);
    }
}

#[test]
fn simulated_lost_or_outdated_surface_is_resized_once() {
    for error in [SurfaceError::Lost, SurfaceError::Outdated] {
        let (mut app, mut host) = started((800, 600), (320, 96));
        host.handle(&mut app, WindowEvent::Resized(800, 600));
        host.handle(&mut app, redraw(16));

        host.window_size = (1024, 768);
        host.fail_next_acquisition = Some(error);
        host.handle(&mut app, redraw(32));
        assert_eq!(host.configured, vec![(800, 600), (1024, 768)]);
        assert_eq!(host.allocations, 2);
        assert_eq!(host.offscreen, Some((1024, 768)));
        assert_eq!(host.logged, 0);
        assert_eq!(host.submissions.len(), 1);
        assert_eq!(host.presented, 1);
        assert_eq!(host.paced, 1);
        assert_eq!(host.redraw_requests, 2);
        assert_eq!(Some(app.state().unwrap().uniform_buffer()), host.uniforms);

        host.handle(&mut app, redraw(48));
        assert_eq!(host.redraw_requests, 3);
        assert_eq!(host.configured.len(), 2);
        assert_eq!(host.submissions.len(), 2);
        assert_eq!(host.presented, 2);
        assert_eq!(host.uniforms.unwrap().aspect, Ratio { num: 1024, den: 768 });
    }
}

#[test]
fn simulated_other_error_is_logged_once() {
    let (mut app, mut host) = started((800, 600), (320, 96));
    host.handle(&mut app, WindowEvent::Resized(800, 600));
    host.window_size = (1024, 768);
    host.fail_next_acquisition = Some(SurfaceError::Other(String::from("timeout")));
    host.handle(&mut app, redraw(16));
    assert_eq!(host.configured, vec![(800, 600)]);
    assert_eq!(host.allocations, 1);
    assert_eq!(host.logged, 1);
    assert!(host.submissions.is_empty());
    assert_eq!(host.presented, 0);
    assert_eq!(host.paced, 0);
    assert_eq!(host.redraw_requests, 1);

    host.handle(&mut app, redraw(32));
    assert_eq!(host.redraw_requests, 2);
    assert_eq!(host.logged, 1);
    assert_eq!(host.submissions.len(), 1);
    assert_eq!(host.uniforms.unwrap().aspect, Ratio { num: 800, den: 600 });
}

#[test]
fn simulated_close_request_exits() {
    let (mut app, mut host) = started((800, 600), (320, 96));
    host.handle(&mut app, WindowEvent::CloseRequested);
    host.handle(&mut app, WindowEvent::Other);
    assert_eq!(host.exits, 1);
    assert!(host.configured.is_empty());
    assert!(host.submissions.is_empty());
}
