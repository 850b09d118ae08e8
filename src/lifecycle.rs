use vstd::prelude::*;

use crate::renderer::RenderError;
use crate::surface::Size;

verus! {

/// Where the application stands: before the window and renderer exist, or
/// with both in place.
#[derive(Clone, Copy, Debug, PartialEq, Eq, Structural)]
pub enum Phase {
    Uninitialized,
    Ready,
}

/// The window events the application reacts to.
#[derive(Clone, Copy, Debug, PartialEq, Eq, Structural)]
pub enum WindowEvent {
    CloseRequested,
    Resized(Size),
    RedrawRequested,
    KeyboardInput,
    Other,
}

/// What the event loop is to do next.
#[derive(Clone, Copy, Debug, PartialEq, Eq, Structural)]
pub enum AppAction {
    /// Create the window and bring the renderer up.
    CreateWindow,
    /// Leave the event loop.
    Exit,
    /// Pass the new size to the renderer.
    Resize(Size),
    /// Render one frame.
    Render,
    /// Ask the window for the next redraw.
    RequestRedraw,
}

/// The application's state between events.
pub struct App {
    phase: Phase,
}

/// The actions for `event` in `phase`, in order.
pub open spec fn event_actions(phase: Phase, event: WindowEvent) -> Seq<AppAction> {
    match event {
        WindowEvent::CloseRequested => seq![AppAction::Exit],
        WindowEvent::Resized(size) => if phase == Phase::Ready {
            seq![AppAction::Resize(size)]
        } else {
            Seq::empty()
        },
        WindowEvent::RedrawRequested => if phase == Phase::Ready {
            seq![AppAction::Render, AppAction::RequestRedraw]
        } else {
            Seq::empty()
        },
        _ => Seq::empty(),
    }
}

impl App {
    pub closed spec fn phase_spec(&self) -> Phase {
        self.phase
    }

    /// A new application: nothing created yet.
    pub fn new() -> (r: App)
        ensures
            r.phase_spec() == Phase::Uninitialized,
    {
        App { phase: Phase::Uninitialized }
    }

    /// The current phase.
    pub fn phase(&self) -> (r: Phase)
        ensures
            r == self.phase_spec(),
    {
        self.phase
    }

    /// The surface became available: the window is to be created once, while
    /// nothing exists yet.
    pub fn resumed(&self) -> (r: Option<AppAction>)
        ensures
            self.phase_spec() == Phase::Uninitialized ==> r == Some(AppAction::CreateWindow),
            self.phase_spec() == Phase::Ready ==> r is None,
    {
        match self.phase {
            Phase::Uninitialized => Some(AppAction::CreateWindow),
            Phase::Ready => None,
        }
    }

    /// The window and renderer now exist.
    pub fn renderer_ready(&mut self)
        ensures
            final(self).phase_spec() == Phase::Ready,
    {
        self.phase = Phase::Ready;
    }

    /// The actions for a window event: close exits; a resize goes to the
    /// renderer and a redraw renders and asks for the next one, both once the
    /// renderer exists; anything else is ignored.
    pub fn window_event(&self, event: WindowEvent) -> (r: Vec<AppAction>)
        ensures
            r@ == event_actions(self.phase_spec(), event),
    {
        let ready = match self.phase {
            Phase::Ready => true,
            Phase::Uninitialized => false,
        };
        match event {
            WindowEvent::CloseRequested => vec![AppAction::Exit],
            WindowEvent::Resized(size) => {
                if ready {
                    vec![AppAction::Resize(size)]
                } else {
                    let r: Vec<AppAction> = Vec::new();
                    assert(r@ =~= event_actions(self.phase_spec(), event));
                    r
                }
            },
            WindowEvent::RedrawRequested => {
                if ready {
                    vec![AppAction::Render, AppAction::RequestRedraw]
                } else {
                    let r: Vec<AppAction> = Vec::new();
                    assert(r@ =~= event_actions(self.phase_spec(), event));
                    r
                }
            },
            _ => {
                let r: Vec<AppAction> = Vec::new();
                assert(r@ =~= event_actions(self.phase_spec(), event));
                r
            },
        }
    }

    /// Whether a frame's outcome ends the event loop: only running out of
    /// memory does, every time it happens.
    pub fn should_exit<T>(&self, result: &Result<T, RenderError>) -> (r: bool)
        ensures
            r == (result matches Err(RenderError::OutOfMemory)),
    {
        match result {
            Ok(_) => false,
            Err(RenderError::OutOfMemory) => true,
        }
    }
}

impl Default for App {
    fn default() -> (r: App)
        ensures
            r.phase_spec() == Phase::Uninitialized,
    {
        App::new()
    }
}

} // verus!
