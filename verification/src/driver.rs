//! The frame driver's state machine. The driver itself lives outside the
//! library: it measures time, polls input and issues draw calls. What it
//! decides — when to start running and when to shut down — is here.

use vstd::prelude::*;

verus! {

/// The three states of the frame driver.
#[derive(Clone, Copy, Debug, PartialEq)]
pub enum Phase {
    /// Acquiring the surface and constructing the entity set.
    Initializing,
    /// Repeating the per-frame passes.
    Running,
    /// Releasing the surface and exiting normally.
    ShuttingDown,
}

/// What the driver observed while processing pending input this frame.
#[derive(Clone, Copy, Debug, PartialEq)]
pub enum InputSignal {
    /// A quit request from the window system.
    Quit,
    /// The cancel key was pressed.
    CancelKey,
    /// Anything else, or nothing at all.
    Other,
}

/// The driver's next state: initialization leads to running; a quit request
/// or the cancel key while running leads to shutting down; shutting down is
/// final.
pub open spec fn phase_after(p: Phase, sig: InputSignal) -> Phase {
    match p {
        Phase::Initializing => Phase::Running,
        Phase::Running => match sig {
            InputSignal::Quit | InputSignal::CancelKey => Phase::ShuttingDown,
            InputSignal::Other => Phase::Running,
        },
        Phase::ShuttingDown => Phase::ShuttingDown,
    }
}

/// Advance the frame driver's state machine by one observation.
pub fn next_phase(p: Phase, sig: InputSignal) -> (q: Phase)
    ensures
        q == phase_after(p, sig),
{
    match p {
        Phase::Initializing => Phase::Running,
        Phase::Running => match sig {
            InputSignal::Quit | InputSignal::CancelKey => Phase::ShuttingDown,
            InputSignal::Other => Phase::Running,
        },
        Phase::ShuttingDown => Phase::ShuttingDown,
    }
}

/// Whether the driver should leave its loop and release the surface.
pub fn should_exit(p: &Phase) -> (r: bool)
    ensures
        r == (*p is ShuttingDown),
{
    match p {
        Phase::ShuttingDown => true,
        _ => false,
    }
}

} // verus!
