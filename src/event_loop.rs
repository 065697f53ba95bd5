//! The frame loop's decisions: from the application state and an event to
//! the next state and the action that the event loop then carries out.
use vstd::prelude::*;
use crate::surface::{resized, Size, State};

verus! {

/// The window events that the frame loop tells apart.
#[derive(Clone, Copy, Debug, PartialEq, Eq, Structural)]
pub enum WindowEvent {
    CloseRequested,
    KeyboardInput { pressed: bool, escape: bool },
    Resized(Size),
    RedrawRequested,
    Other,
}

/// Why a frame could not be acquired from the surface.
#[derive(Clone, Copy, Debug, PartialEq, Eq, Structural)]
pub enum SurfaceError {
    Timeout,
    Outdated,
    Lost,
    OutOfMemory,
}

/// What the event loop does after an event.
#[derive(Clone, Copy, Debug, PartialEq, Eq, Structural)]
pub enum Action {
    /// Nothing to do.
    Nothing,
    /// Terminate the event loop.
    Exit,
    /// Configure the surface with this size.
    Configure(Size),
    /// Acquire the next frame, draw it, submit and present it.
    Draw,
    /// A redraw came before the surface was ready; it is skipped.
    SkipNotReady,
    /// Acquiring a frame timed out; the frame is skipped.
    SkipTimeout,
}

/// The message that the asynchronous context creation sends into the event
/// loop once it is done.
#[derive(Clone, Copy, Debug, PartialEq, Eq, Structural)]
pub enum UserEvent {
    StateReady(State),
}

/// The application: no state until the rendering context is ready.
#[derive(Clone, Copy, Debug, PartialEq, Eq, Structural)]
pub struct App {
    pub state: Option<State>,
}

/// A close request, or the Escape key pressed.
pub open spec fn is_exit_event(e: WindowEvent) -> bool {
    ||| e is CloseRequested
    ||| e matches WindowEvent::KeyboardInput { pressed, escape } && pressed && escape
}

/// The next application state, and the action, after a window event.
pub open spec fn step(app: App, e: WindowEvent) -> (App, Action) {
    if is_exit_event(e) {
        (app, Action::Exit)
    } else {
        match app.state {
            None => (app, Action::Nothing),
            Some(s) => match e {
                WindowEvent::Resized(n) => if n.is_positive() {
                    let s2 = State { state_ready: true, ..resized(s, n) };
                    (App { state: Some(s2) }, Action::Configure(n))
                } else {
                    (app, Action::Nothing)
                },
                WindowEvent::RedrawRequested => if s.state_ready {
                    (app, Action::Draw)
                } else {
                    (app, Action::SkipNotReady)
                },
                _ => (app, Action::Nothing),
            },
        }
    }
}

/// The next application state, and the action, after a frame was drawn with
/// the given result of acquiring it.
pub open spec fn frame_step(app: App, result: Result<(), SurfaceError>) -> (App, Action) {
    match app.state {
        None => (app, Action::Nothing),
        Some(s) => match result {
            Ok(()) => (app, Action::Nothing),
            Err(SurfaceError::Timeout) => (app, Action::SkipTimeout),
            Err(SurfaceError::OutOfMemory) => (app, Action::Exit),
            Err(_) => (App { state: Some(resized(s, s.size)) }, Action::Configure(s.size)),
        },
    }
}

/// The state and the actions after a sequence of window events, in order.
pub open spec fn run_events(app: App, events: Seq<WindowEvent>) -> (App, Seq<Action>)
    decreases events.len(),
{
    if events.len() == 0 {
        (app, Seq::empty())
    } else {
        let (next, a) = step(app, events[0]);
        let (last, rest) = run_events(next, events.drop_first());
        (last, seq![a].add(rest))
    }
}

impl App {
    /// Any state there is is well formed.
    pub open spec fn wf(&self) -> bool {
        self.state matches Some(s) ==> s.wf()
    }

    pub fn new() -> (app: App)
        ensures
            app.state is None,
            app.wf(),
    {
        App { state: None }
    }

    /// The context is ready: its state is taken over.
    pub fn user_event(&mut self, event: UserEvent)
        requires
            event matches UserEvent::StateReady(s) && s.wf(),
        ensures
            final(self).wf(),
            final(self).state == Some(event->StateReady_0),
    {
        let UserEvent::StateReady(state) = event;
        self.state = Some(state);
    }

    /// Whether a redraw would now draw a frame.
    pub fn is_ready(&self) -> (r: bool)
        ensures
            r == (self.state matches Some(s) && s.state_ready),
    {
        match &self.state {
            Some(s) => s.state_ready,
            None => false,
        }
    }

    /// Handles a window event. A close request or Escape exits at any time.
    /// Before the context is ready every other event is ignored. Then a
    /// resize with both dimensions non-zero stores the size, marks the
    /// surface ready and asks for a reconfigure, while one with a zero
    /// dimension is ignored; a redraw draws once the surface is ready.
    pub fn window_event(&mut self, event: WindowEvent) -> (action: Action)
        requires
            old(self).wf(),
        ensures
            final(self).wf(),
            (*final(self), action) == step(*old(self), event),
    {
        let exit = match event {
            WindowEvent::CloseRequested => true,
            WindowEvent::KeyboardInput { pressed, escape } => pressed && escape,
            _ => false,
        };
        if exit {
            return Action::Exit;
        }
        let state = match &mut self.state {
            Some(s) => s,
            None => {
                return Action::Nothing;
            },
        };
        match event {
            WindowEvent::Resized(new_size) => {
                if state.resize(new_size) {
                    state.state_ready = true;
                    Action::Configure(state.config)
                } else {
                    Action::Nothing
                }
            },
            WindowEvent::RedrawRequested => {
                if state.state_ready {
                    Action::Draw
                } else {
                    Action::SkipNotReady
                }
            },
            _ => Action::Nothing,
        }
    }

    /// Handles the result of acquiring a frame. A timeout skips the frame; a
    /// lost or outdated surface is reconfigured with the last valid size; out
    /// of memory exits.
    pub fn frame_result(&mut self, result: Result<(), SurfaceError>) -> (action: Action)
        requires
            old(self).wf(),
        ensures
            final(self).wf(),
            (*final(self), action) == frame_step(*old(self), result),
    {
        let state = match &mut self.state {
            Some(s) => s,
            None => {
                return Action::Nothing;
            },
        };
        match result {
            Ok(()) => Action::Nothing,
            Err(SurfaceError::Timeout) => Action::SkipTimeout,
            Err(SurfaceError::OutOfMemory) => Action::Exit,
            Err(SurfaceError::Lost) | Err(SurfaceError::Outdated) => {
                let size = state.size;
                state.resize(size);
                Action::Configure(state.config)
            },
        }
    }
}

/// A resize with a zero dimension is ignored: no reconfigure, and the
/// application is left as it was, readiness included.
pub proof fn lemma_degenerate_resize_ignored(app: App, new_size: Size)
    requires
        new_size.width == 0 || new_size.height == 0,
    ensures
        step(app, WindowEvent::Resized(new_size)) == (app, Action::Nothing),
{
}

/// Once the context is ready, a resize with positive dimensions stores
/// exactly those dimensions and configures the surface with them.
pub proof fn lemma_positive_resize_stored(app: App, new_size: Size)
    requires
        app.wf(),
        app.state is Some,
        new_size.is_positive(),
    ensures
        step(app, WindowEvent::Resized(new_size)).0.state matches Some(s2) && s2.size == new_size
            && s2.config == new_size && s2.state_ready,
        step(app, WindowEvent::Resized(new_size)).1 == Action::Configure(new_size),
{
}

/// The action that a window event gives before the ready signal.
pub open spec fn action_before_ready(e: WindowEvent) -> Action {
    if is_exit_event(e) {
        Action::Exit
    } else {
        Action::Nothing
    }
}

/// Before the ready signal, no sequence of window events draws a frame: a
/// close request or Escape exits, every other event is ignored, and the
/// application stays without state.
pub proof fn lemma_no_draw_before_ready(app: App, events: Seq<WindowEvent>)
    requires
        app.state is None,
    ensures
        run_events(app, events).0 == app,
        forall|i: int| 0 <= i < events.len() ==> #[trigger] run_events(app, events).1[i]
            == action_before_ready(events[i]),
        forall|i: int| 0 <= i < events.len() ==> #[trigger] run_events(app, events).1[i]
            != Action::Draw,
        run_events(app, events).1.len() == events.len(),
    decreases events.len(),
{
    if events.len() > 0 {
        lemma_no_draw_before_ready(app, events.drop_first());
        let rest = run_events(app, events.drop_first()).1;
        assert forall|i: int| 0 <= i < events.len() implies #[trigger] run_events(app, events).1[i]
            == action_before_ready(events[i]) by {
            if i > 0 {
                assert(run_events(app, events).1[i] == rest[i - 1]);
            }
        }
    }
}

/// Until a first resize with non-zero dimensions marks the surface ready, a
/// redraw draws nothing.
pub proof fn lemma_redraw_before_ready_skipped(app: App)
    requires
        !(app.state matches Some(s) && s.state_ready),
    ensures
        step(app, WindowEvent::RedrawRequested).1 != Action::Draw,
        step(app, WindowEvent::RedrawRequested).0 == app,
{
}

/// A lost or outdated surface is reconfigured with the last valid size, which
/// stays stored; it never exits.
pub proof fn lemma_lost_surface_reconfigures(app: App, e: SurfaceError)
    requires
        app.wf(),
        app.state is Some,
        e is Lost || e is Outdated,
    ensures
        frame_step(app, Err(e)).1 == Action::Configure(app.state->Some_0.size),
        frame_step(app, Err(e)).0 == app,
        frame_step(app, Err(e)).1 != Action::Exit,
{
}

/// A close request, or Escape pressed, terminates the event loop whatever
/// the application's state, and changes nothing else.
pub proof fn lemma_exit_event_exits(app: App, e: WindowEvent)
    requires
        is_exit_event(e),
    ensures
        step(app, e) == (app, Action::Exit),
{
}

/// Out of memory while acquiring a frame exits the event loop.
pub proof fn lemma_out_of_memory_exits(app: App)
    requires
        app.state is Some,
    ensures
        frame_step(app, Err(SurfaceError::OutOfMemory)).1 == Action::Exit,
{
}

} // verus!
