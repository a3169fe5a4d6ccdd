//! The application loop controller: it owns at most one (window,
//! manager) pair, routes platform window events to the manager, and
//! decides how the loop reacts to frame-acquisition failures.

use vstd::prelude::*;

use crate::events::{Effect, Event};
use crate::gfx::{AcquireError, GfxState};
use crate::surface::Extent;

verus! {

/// The size the window is requested with at startup, in logical units.
pub open spec fn spec_initial_window_size() -> Extent {
    Extent { width: 800, height: 800 }
}

/// Returns the fixed logical size the startup window asks for.
pub fn initial_window_size() -> (s: Extent)
    ensures
        s == spec_initial_window_size(),
        s.is_positive(),
{
    Extent { width: 800, height: 800 }
}

/// The live pair: the platform identifier of the window and the
/// manager driving its surface.
#[derive(Clone, Copy, PartialEq, Eq, Structural, Debug)]
pub struct Session {
    pub window_id: u64,
    pub gfx: GfxState,
}

/// The controller's state: absent pair before the platform signals
/// readiness, present afterward; `exited` is the loop's terminal flag,
/// raised on a close request, an Escape press, or an out-of-memory
/// failure.
#[derive(Clone, Copy, Debug)]
pub struct App {
    pub session: Option<Session>,
    pub exited: bool,
}

impl App {
    /// The controller's invariant: whenever a pair is live, its manager
    /// satisfies the manager invariant.
    pub open spec fn wf(self) -> bool {
        match self.session {
            Some(s) => s.gfx.wf(),
            None => true,
        }
    }

    /// Whether the loop is still running and a pair is live.
    pub open spec fn live(self) -> bool {
        !self.exited && self.session is Some
    }

    /// The live manager (meaningful only while a pair is live).
    pub open spec fn live_gfx(self) -> GfxState {
        match self.session {
            Some(s) => s.gfx,
            None => arbitrary(),
        }
    }

    /// Whether the controller acts on events carrying this window
    /// identifier: the loop must not have exited, a pair must be live,
    /// and the identifier must be the live window's.
    pub open spec fn accepts(self, window_id: u64) -> bool {
        &&& !self.exited
        &&& match self.session {
            Some(s) => s.window_id == window_id,
            None => false,
        }
    }

    /// A fresh controller: no pair, loop running.
    pub fn new() -> (a: App)
        ensures
            a.session is None,
            !a.exited,
    {
        App { session: None, exited: false }
    }

    /// The platform signalled readiness: install the freshly created
    /// window and manager as the live pair.
    pub fn resumed(&mut self, window_id: u64, gfx: GfxState)
        ensures
            final(self).session == Some((Session { window_id, gfx })),
            final(self).exited == old(self).exited,
            gfx.wf() ==> final(self).wf(),
    {
        self.session = Some(Session { window_id, gfx });
    }

    /// What dispatching one window event does: which state the
    /// controller moves to and which effect the host loop must perform.
    ///
    /// Events are ignored entirely — no state change, no effect — when
    /// no pair is live, when the loop has exited, or when the event is
    /// addressed to a window identifier other than the live window's.
    /// Otherwise: a close request or an Escape press exits the loop; an
    /// Escape release does not; a resize is forwarded to the manager,
    /// asking for reconfiguration exactly when the new size has
    /// positive area; a scale-factor change is deliberately ignored; a
    /// redraw request yields the render effect; anything else does
    /// nothing.
    pub open spec fn spec_window_event(self, window_id: u64, event: Event) -> (App, Effect) {
        match self.session {
            None => (self, Effect::Nothing),
            Some(s) => if self.exited || s.window_id != window_id {
                (self, Effect::Nothing)
            } else {
                match event {
                    Event::CloseRequested => (App { exited: true, ..self }, Effect::Exit),
                    Event::Key { escape, pressed } => if escape && pressed {
                        (App { exited: true, ..self }, Effect::Exit)
                    } else {
                        (self, Effect::Nothing)
                    },
                    Event::Resized(new_size) => {
                        let g = s.gfx.spec_resize(new_size);
                        (
                            App { session: Some(Session { window_id: s.window_id, gfx: g }), ..self },
                            if new_size.is_positive() {
                                Effect::Reconfigure(g.config)
                            } else {
                                Effect::Nothing
                            },
                        )
                    },
                    Event::ScaleFactorChanged => (self, Effect::Nothing),
                    Event::RedrawRequested => (self, Effect::Render),
                    Event::Other => (self, Effect::Nothing),
                }
            },
        }
    }

    /// Dispatches one window event and returns the effect the host loop
    /// must perform. The input hook is consulted first; it consumes
    /// nothing today, so dispatch always proceeds.
    pub fn window_event(&mut self, window_id: u64, event: Event) -> (e: Effect)
        ensures
            *final(self) == old(self).spec_window_event(window_id, event).0,
            e == old(self).spec_window_event(window_id, event).1,
            !old(self).accepts(window_id) ==> *final(self) == *old(self) && e == Effect::Nothing,
            (old(self).session matches Some(s) && s.window_id != window_id) ==> (*final(self)
                == *old(self) && e == Effect::Nothing),
            (old(self).accepts(window_id) && event == Event::CloseRequested) ==> (
            final(self).exited && e == Effect::Exit),
            (old(self).accepts(window_id) && event matches Event::Key { escape: true, pressed: true }) ==> (
            final(self).exited && e == Effect::Exit),
            (old(self).accepts(window_id) && event matches Event::Key { escape: true, pressed: false }) ==> (
            *final(self) == *old(self) && e == Effect::Nothing),
    {
        let sess = self.session;
        match sess {
            None => Effect::Nothing,
            Some(s) => {
                if self.exited || s.window_id != window_id {
                    return Effect::Nothing;
                }
                let mut gfx = s.gfx;
                if gfx.input(&event) {
                    return Effect::Nothing;
                }
                match event {
                    Event::CloseRequested => {
                        self.exited = true;
                        Effect::Exit
                    },
                    Event::Key { escape, pressed } => {
                        if escape && pressed {
                            self.exited = true;
                            Effect::Exit
                        } else {
                            Effect::Nothing
                        }
                    },
                    Event::Resized(new_size) => {
                        let reconfigure = gfx.resize(new_size);
                        self.session = Some(Session { window_id: s.window_id, gfx });
                        if reconfigure {
                            Effect::Reconfigure(gfx.config)
                        } else {
                            Effect::Nothing
                        }
                    },
                    Event::ScaleFactorChanged => Effect::Nothing,
                    Event::RedrawRequested => Effect::Render,
                    Event::Other => Effect::Nothing,
                }
            },
        }
    }

    /// What the controller does with the outcome the host loop reports
    /// after rendering a frame: a lost surface is answered by a resize
    /// to the currently stored size (forcing reconfiguration, and
    /// leaving the state itself as it was); an out-of-memory failure
    /// exits the loop; success and any transient failure need nothing,
    /// the next frame being the retry.
    pub open spec fn spec_after_render(self, outcome: Result<(), AcquireError>) -> (App, Effect) {
        match self.session {
            None => (self, Effect::Nothing),
            Some(s) => if self.exited {
                (self, Effect::Nothing)
            } else {
                match outcome {
                    Ok(_) => (self, Effect::Nothing),
                    Err(AcquireError::Lost) => {
                        let g = s.gfx.spec_resize(s.gfx.size);
                        (
                            App { session: Some(Session { window_id: s.window_id, gfx: g }), ..self },
                            if s.gfx.size.is_positive() {
                                Effect::Reconfigure(g.config)
                            } else {
                                Effect::Nothing
                            },
                        )
                    },
                    Err(AcquireError::OutOfMemory) => (App { exited: true, ..self }, Effect::Exit),
                    Err(AcquireError::Transient) => (self, Effect::Nothing),
                }
            },
        }
    }

    /// Reacts to the outcome of one render. On a lost surface the
    /// effect reconfigures with the configuration at the currently
    /// stored size; on out-of-memory the loop moves to its terminal
    /// state; transient failures are left for the next frame.
    pub fn after_render(&mut self, outcome: Result<(), AcquireError>) -> (e: Effect)
        ensures
            *final(self) == old(self).spec_after_render(outcome).0,
            e == old(self).spec_after_render(outcome).1,
            old(self).exited ==> *final(self) == *old(self) && e == Effect::Nothing,
            (old(self).live() && old(self).wf() && outcome matches Err(AcquireError::Lost)) ==> (
            *final(self) == *old(self) && e == Effect::Reconfigure(old(self).live_gfx().config)),
            (old(self).live() && outcome matches Err(AcquireError::OutOfMemory)) ==> (
            final(self).exited && e == Effect::Exit),
            (outcome matches Ok(_)) ==> *final(self) == *old(self) && e == Effect::Nothing,
    {
        let sess = self.session;
        match sess {
            None => Effect::Nothing,
            Some(s) => {
                if self.exited {
                    return Effect::Nothing;
                }
                match outcome {
                    Ok(_) => Effect::Nothing,
                    Err(AcquireError::Lost) => {
                        let mut gfx = s.gfx;
                        let size = gfx.size;
                        let reconfigure = gfx.resize(size);
                        self.session = Some(Session { window_id: s.window_id, gfx });
                        if reconfigure {
                            Effect::Reconfigure(gfx.config)
                        } else {
                            Effect::Nothing
                        }
                    },
                    Err(AcquireError::OutOfMemory) => {
                        self.exited = true;
                        Effect::Exit
                    },
                    Err(AcquireError::Transient) => Effect::Nothing,
                }
            },
        }
    }

    /// Device-level (non-window) events are ignored entirely.
    pub fn device_event(&mut self)
        ensures
            *final(self) == *old(self),
    {
    }

    /// The platform's "suspended" signal performs no state change
    /// today.
    pub fn suspended(&mut self)
        ensures
            *final(self) == *old(self),
    {
    }
}

impl Default for App {
    /// A fresh controller: no pair, loop running.
    fn default() -> (a: App)
        ensures
            a.session is None,
            !a.exited,
    {
        App { session: None, exited: false }
    }
}

/// Law: the terminal state really is terminal. Once the controller has
/// exited, every window event and every render outcome leaves it
/// unchanged and asks the host loop for nothing — in particular no
/// further render is requested after an out-of-memory failure.
pub proof fn lemma_exited_is_terminal(
    app: App,
    window_id: u64,
    event: Event,
    outcome: Result<(), AcquireError>,
)
    requires
        app.exited,
    ensures
        app.spec_window_event(window_id, event) == (app, Effect::Nothing),
        app.spec_after_render(outcome) == (app, Effect::Nothing),
{
}

/// Law: event dispatch preserves the controller invariant.
pub proof fn lemma_window_event_preserves_wf(app: App, window_id: u64, event: Event)
    requires
        app.wf(),
    ensures
        app.spec_window_event(window_id, event).0.wf(),
{
}

/// Law: reacting to a render outcome preserves the controller
/// invariant.
pub proof fn lemma_after_render_preserves_wf(app: App, outcome: Result<(), AcquireError>)
    requires
        app.wf(),
    ensures
        app.spec_after_render(outcome).0.wf(),
{
}

} // verus!
