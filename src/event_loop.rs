//! The decisions of the window's polling loop. The loop itself, which waits
//! on the window system, is driven by the caller: each event is handed to
//! [`FrameLoop::tick`], and the caller does what the returned action says.

use vstd::prelude::*;

verus! {

/// What the window system delivered on one iteration.
#[derive(Clone, Copy, Debug, PartialEq, Eq, Structural)]
pub enum LoopEvent {
    CloseRequested,
    Other,
}

/// How the loop goes on after an iteration.
#[derive(Clone, Copy, Debug, PartialEq, Eq, Structural)]
pub enum LoopControl {
    /// Keep polling without waiting for events.
    Poll,
    /// Leave the loop.
    Exit,
}

/// What to do on one iteration.
#[derive(Clone, Copy, Debug, PartialEq, Eq, Structural)]
pub struct TickAction {
    /// Whether to invoke the frame callback.
    pub run_frame: bool,
    pub control: LoopControl,
}

/// The loop's state: whether exit has been requested.
#[derive(Clone, Copy, Debug, PartialEq, Eq, Structural)]
pub struct FrameLoop {
    pub exit_requested: bool,
}

impl FrameLoop {
    pub fn new() -> (r: FrameLoop)
        ensures
            !r.exit_requested,
    {
        FrameLoop { exit_requested: false }
    }

    /// One iteration: unless exit was requested earlier, the frame callback
    /// runs, whatever the event; a close request then sets the exit condition,
    /// which is never cleared.
    pub fn tick(&mut self, event: LoopEvent) -> (r: TickAction)
        ensures
            final(self).exit_requested == (old(self).exit_requested || event == LoopEvent::CloseRequested),
            r.run_frame == !old(self).exit_requested,
            r.control == (if final(self).exit_requested { LoopControl::Exit } else { LoopControl::Poll }),
    {
        let run_frame = !self.exit_requested;
        if event == LoopEvent::CloseRequested {
            self.exit_requested = true;
        }
        let control = if self.exit_requested { LoopControl::Exit } else { LoopControl::Poll };
        TickAction { run_frame, control }
    }
}

} // verus!
