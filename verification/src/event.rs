//! The event loop's side of the composer: which plan answers which window
//! event, and how a failed draw is recovered from.

use crate::geometry::text_quad;
use crate::pacer::Elapsed;
use crate::plan::{requests_redraw_last, Command, Shaders};
use crate::resource::TextureId;
use crate::state::{State, StateView};
use crate::surface::{initial_configuration, InitError, SurfaceCapabilities, SurfaceConfiguration};
use vstd::prelude::*;

verus! {

/// Why the next surface image could not be acquired.
#[derive(Clone, Debug, PartialEq, Eq)]
pub enum SurfaceError {
    /// The surface was lost and has to be configured again.
    Lost,
    /// The surface no longer matches the window and has to be configured
    /// again.
    Outdated,
    /// Anything else, with the backend's description of it.
    Other(String),
}

impl SurfaceError {
    /// Whether configuring the surface again recovers from this error.
    pub open spec fn is_transient(self) -> bool {
        self is Lost || self is Outdated
    }

    /// Returns whether configuring the surface again recovers from this
    /// error.
    pub fn transient(&self) -> (transient: bool)
        ensures
            transient == self.is_transient(),
    {
        match self {
            SurfaceError::Lost => true,
            SurfaceError::Outdated => true,
            SurfaceError::Other(_) => false,
        }
    }
}

/// What the window reports to the composer.
#[derive(Clone, Copy, Debug, PartialEq, Eq, Structural)]
pub enum WindowEvent {
    /// The user asked to close the window.
    CloseRequested,
    /// The window now has this width and height in pixels.
    Resized(u32, u32),
    /// The window wants to be redrawn, this long after the composer's
    /// clock started.
    RedrawRequested(Elapsed),
    /// Any other event.
    Other,
}

/// The plan that answers `event` while the composer is in state `state`.
///
/// A redraw request is answered by the plan of a frame and then by the
/// request for the next redraw, so that the composer keeps its own loop
/// going. The request comes last and is there in every state: before the
/// surface is configured it is all there is.
pub open spec fn event_plan(state: StateView, event: WindowEvent) -> Seq<Command> {
    match event {
        WindowEvent::CloseRequested => seq![Command::Exit],
        WindowEvent::Resized(width, height) => state.resize_plan(width, height),
        WindowEvent::RedrawRequested(time) => state.frame_plan(time).push(Command::RequestRedraw),
        WindowEvent::Other => Seq::empty(),
    }
}

/// The state that `event` leaves a composer in that was in state `state`.
pub open spec fn after_event(state: StateView, event: WindowEvent) -> StateView {
    match event {
        WindowEvent::CloseRequested => state,
        WindowEvent::Resized(width, height) => state.resized(width, height),
        WindowEvent::RedrawRequested(time) => state.drawn(time),
        WindowEvent::Other => state,
    }
}

/// What is done about `error` itself, met while acquiring the surface
/// image for a window that is `window_size` pixels large by now: a
/// transient error is answered by the plan of a resize to that size, any
/// other error is reported.
pub open spec fn remedy(state: StateView, error: SurfaceError, window_size: (u32, u32)) -> Seq<
    Command,
> {
    if error.is_transient() {
        state.resize_plan(window_size.0, window_size.1)
    } else {
        seq![Command::LogError]
    }
}

/// The plan that recovers from `error`: the remedy, and then the request
/// for the next redraw, which the frame that failed did not get to.
pub open spec fn recovery_plan(state: StateView, error: SurfaceError, window_size: (u32, u32))
    -> Seq<Command> {
    remedy(state, error, window_size).push(Command::RequestRedraw)
}

/// The state that recovering from `error` leaves a composer in.
pub open spec fn after_recovery(state: StateView, error: SurfaceError, window_size: (u32, u32))
    -> StateView {
    if error.is_transient() {
        state.resized(window_size.0, window_size.1)
    } else {
        state
    }
}

/// Recovery from a lost or outdated surface is one resize to the size that
/// the window reports, followed by the request for the next redraw, and
/// nothing else: the surface is configured once, for exactly that size,
/// and nothing is reported. Recovery from any other error is one report,
/// followed by the request for the next redraw, and nothing else: the
/// composer stays as it is and the surface is left alone.
pub proof fn lemma_recovery(state: StateView, error: SurfaceError, window_size: (u32, u32))
    ensures
        error.is_transient() ==> {
            &&& recovery_plan(state, error, window_size) == state.resize_plan(
                window_size.0,
                window_size.1,
            ).push(Command::RequestRedraw)
            &&& after_recovery(state, error, window_size) == state.resized(
                window_size.0,
                window_size.1,
            )
        },
        error.is_transient() && window_size.0 > 0 && window_size.1 > 0 ==> {
            &&& recovery_plan(state, error, window_size) == seq![
                Command::ConfigureSurface(
                    SurfaceConfiguration {
                        width: window_size.0,
                        height: window_size.1,
                        ..state.config
                    },
                ),
                Command::DestroyTexture(TextureId::Offscreen),
                Command::CreateOffscreenTarget { width: window_size.0, height: window_size.1 },
                Command::WriteTextQuad(text_quad(state.text_size(), window_size)),
                Command::RequestRedraw,
            ]
            &&& after_recovery(state, error, window_size).surface_size() == window_size
        },
        error.is_transient() && (window_size.0 == 0 || window_size.1 == 0) ==> {
            &&& recovery_plan(state, error, window_size) == seq![Command::RequestRedraw]
            &&& after_recovery(state, error, window_size) == state
        },
        !error.is_transient() ==> {
            &&& recovery_plan(state, error, window_size) == seq![
                Command::LogError,
                Command::RequestRedraw,
            ]
            &&& after_recovery(state, error, window_size) == state
        },
{
    let plan = recovery_plan(state, error, window_size);
    if error.is_transient() && window_size.0 > 0 && window_size.1 > 0 {
        assert(plan =~= seq![
            Command::ConfigureSurface(
                SurfaceConfiguration {
                    width: window_size.0,
                    height: window_size.1,
                    ..state.config
                },
            ),
            Command::DestroyTexture(TextureId::Offscreen),
            Command::CreateOffscreenTarget { width: window_size.0, height: window_size.1 },
            Command::WriteTextQuad(text_quad(state.text_size(), window_size)),
            Command::RequestRedraw,
        ]);
    } else if error.is_transient() {
        assert(plan =~= seq![Command::RequestRedraw]);
    } else {
        assert(plan =~= seq![Command::LogError, Command::RequestRedraw]);
    }
}

/// Every redraw request is answered by the draw and then by the request
/// for the next redraw, whatever the state of the composer and whatever
/// becomes of the draw. The plan that answers a redraw request is the
/// plan of one frame followed by the one request, so a frame that is
/// carried out to its end is followed by the request; a frame that ends
/// early, at the acquisition, is followed by a recovery that ends with
/// the one request; and before the surface is configured the request is
/// all that is done.
pub proof fn lemma_redraw_is_requested_once(
    state: StateView,
    time: Elapsed,
    error: SurfaceError,
    window_size: (u32, u32),
)
    ensures
        event_plan(state, WindowEvent::RedrawRequested(time)) == state.frame_plan(time).push(
            Command::RequestRedraw,
        ),
        requests_redraw_last(event_plan(state, WindowEvent::RedrawRequested(time))),
        requests_redraw_last(recovery_plan(state, error, window_size)),
        !state.is_surface_configured ==> event_plan(state, WindowEvent::RedrawRequested(time))
            == seq![Command::RequestRedraw],
        state.is_surface_configured ==> {
            &&& event_plan(state, WindowEvent::RedrawRequested(time))[1] == Command::AcquireSurface
            &&& event_plan(state, WindowEvent::RedrawRequested(time))[0] is WriteUniforms
        },
{
    let frame = state.frame_plan(time);
    let answer = event_plan(state, WindowEvent::RedrawRequested(time));
    if state.is_surface_configured {
        crate::state::lemma_frame_plan_order(state, time);
        assert forall|i: int| 0 <= i < answer.len() - 1 implies #[trigger] answer[i]
            != Command::RequestRedraw by {
            assert(answer[i] == frame[i]);
        }
    } else {
        assert(answer =~= seq![Command::RequestRedraw]);
    }
    lemma_recovery(state, error, window_size);
}

/// No event and no recovery breaks the invariant of the composer.
pub proof fn lemma_events_keep_invariant(
    state: StateView,
    event: WindowEvent,
    error: SurfaceError,
    window_size: (u32, u32),
)
    requires
        state.inv(),
    ensures
        after_event(state, event).inv(),
        after_recovery(state, error, window_size).inv(),
{
}

/// The application: a composer once the window exists, nothing before.
#[derive(Clone, Debug, PartialEq, Eq)]
pub struct App {
    state: Option<State>,
}

impl View for App {
    type V = Option<StateView>;

    closed spec fn view(&self) -> Option<StateView> {
        match self.state {
            Some(state) => Some(state@),
            None => None,
        }
    }
}

impl Default for App {
    /// Returns an application without a composer.
    fn default() -> (app: App)
        ensures
            app@ is None,
    {
        App { state: None }
    }
}

impl App {
    /// Returns the composer, if there is one.
    pub fn state(&self) -> (state: Option<&State>)
        ensures
            match state {
                Some(state) => self@ == Some(state@),
                None => self@ is None,
            },
    {
        self.state.as_ref()
    }

    /// Sets up the composer once the window exists; see [`State::new`] for
    /// the arguments. On failure the application is left as it was.
    pub fn resumed(
        &mut self,
        window_size: (u32, u32),
        capabilities: &SurfaceCapabilities,
        text_size: (u32, u32),
        shaders: Shaders,
    ) -> (made: Result<(), InitError>)
        ensures
            match made {
                Ok(_) => {
                    &&& final(self)@ matches Some(state)
                    &&& state.inv()
                    &&& !state.is_surface_configured
                    &&& state == StateView::initial(
                        state.config,
                        text_size,
                        shaders.effect@,
                        shaders.text_overlay@,
                        shaders.post_process@,
                    )
                    &&& initial_configuration(
                        capabilities.formats@,
                        capabilities.present_modes@,
                        capabilities.alpha_modes@,
                        window_size,
                    ) == Ok::<SurfaceConfiguration, InitError>(state.config)
                },
                Err(error) => {
                    &&& final(self)@ == old(self)@
                    &&& initial_configuration(
                        capabilities.formats@,
                        capabilities.present_modes@,
                        capabilities.alpha_modes@,
                        window_size,
                    ) == Err::<SurfaceConfiguration, InitError>(error)
                },
            },
    {
        match State::new(window_size, capabilities, text_size, shaders) {
            Ok(state) => {
                self.state = Some(state);
                Ok(())
            },
            Err(error) => Err(error),
        }
    }

    /// Handles a window event and returns what the host has to do for it.
    ///
    /// Before the composer is set up every event is ignored. After that a
    /// close request ends the loop, a resize is handed to the composer, a
    /// redraw request draws a frame and then asks for the next redraw,
    /// and any other event is ignored.
    pub fn window_event(&mut self, event: WindowEvent) -> (plan: Vec<Command>)
        ensures
            match old(self)@ {
                Some(state) => {
                    &&& plan@ == event_plan(state, event)
                    &&& final(self)@ == Some(after_event(state, event))
                    &&& event is RedrawRequested ==> requests_redraw_last(plan@)
                },
                None => plan@ == Seq::<Command>::empty() && final(self)@ is None,
            },
    {
        let state = match &mut self.state {
            Some(state) => state,
            None => {
                return Vec::new();
            },
        };
        match event {
            WindowEvent::CloseRequested => {
                let mut plan: Vec<Command> = Vec::new();
                plan.push(Command::Exit);
                assert(plan@ =~= seq![Command::Exit]);
                plan
            },
            WindowEvent::Resized(width, height) => state.on_resize(width, height),
            WindowEvent::RedrawRequested(elapsed) => {
                proof {
                    lemma_redraw_is_requested_once(state@, elapsed, SurfaceError::Lost, (0, 0));
                }
                let mut plan = state.on_draw(elapsed);
                plan.push(Command::RequestRedraw);
                plan
            },
            WindowEvent::Other => Vec::new(),
        }
    }

    /// Handles the failure to acquire the surface image during a draw and
    /// returns what the host has to do for it. `window_size` is the size
    /// that the window reports at this moment.
    ///
    /// A lost or outdated surface is configured again, once, for that
    /// size; no frame is rendered in this cycle. Any other error is
    /// reported, once, and the composer stays as it is. Either way the
    /// next redraw is asked for, once, at the end.
    pub fn draw_failed(&mut self, error: &SurfaceError, window_size: (u32, u32)) -> (plan: Vec<
        Command,
    >)
        ensures
            match old(self)@ {
                Some(state) => {
                    &&& plan@ == recovery_plan(state, *error, window_size)
                    &&& final(self)@ == Some(after_recovery(state, *error, window_size))
                    &&& requests_redraw_last(plan@)
                },
                None => plan@ == Seq::<Command>::empty() && final(self)@ is None,
            },
    {
        let state = match &mut self.state {
            Some(state) => state,
            None => {
                return Vec::new();
            },
        };
        proof {
            lemma_redraw_is_requested_once(
                state@,
                Elapsed { secs: 0, subsec_nanos: 0 },
                *error,
                window_size,
            );
        }
        let mut plan = if error.transient() {
            state.on_resize(window_size.0, window_size.1)
        } else {
            let mut report: Vec<Command> = Vec::new();
            report.push(Command::LogError);
            assert(report@ =~= seq![Command::LogError]);
            report
        };
        plan.push(Command::RequestRedraw);
        plan
    }
}

} // verus!
