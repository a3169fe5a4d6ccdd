//! Platform events as the controller reads them, and the effects the
//! controller hands back to the host loop.

use vstd::prelude::*;

use crate::surface::{Extent, SurfaceConfig};

verus! {

/// A window event, reduced to the fields the controller's dispatch
/// reads.
#[derive(Clone, Copy, PartialEq, Eq, Structural, Debug)]
pub enum Event {
    /// The user asked to close the window.
    CloseRequested,
    /// A keyboard event: whether the physical key is Escape, and
    /// whether this is a press (as opposed to a release).
    Key { escape: bool, pressed: bool },
    /// The window's physical size changed to the given extent.
    Resized(Extent),
    /// The display's scale factor changed. Deliberately unhandled.
    ScaleFactorChanged,
    /// The platform asks for the next frame to be drawn.
    RedrawRequested,
    /// Any other window event.
    Other,
}

/// What the host loop must do after handing the controller an event or
/// a render outcome.
#[derive(Clone, Copy, PartialEq, Eq, Structural, Debug)]
pub enum Effect {
    /// Nothing to do.
    Nothing,
    /// Stop the event loop; no further events are processed.
    Exit,
    /// Reconfigure the surface with this configuration.
    Reconfigure(SurfaceConfig),
    /// Run the per-frame update, render the fixed frame plan, report
    /// the outcome back, and then request another redraw.
    Render,
}

} // verus!
