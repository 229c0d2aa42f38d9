//! Event-loop state: how an event handler asks the loop to stop.

use vstd::prelude::*;

verus! {

/// A trait which the event handler can use to shutdown the event loop.
pub trait EventLoopState {
    /// Signal that the event loop should stop.
    fn request_shutdown(&mut self);
}

/// A type which implements EventLoopState with a single boolean flag.
#[derive(Clone, Copy, Debug)]
pub struct SimpleEventLoopState {
    /// A flag indicating if the event loop should keep running.
    pub running: bool,
}

impl Default for SimpleEventLoopState {
    /// A loop starts out running.
    fn default() -> (r: Self)
        ensures
            r.running,
    {
        Self { running: true }
    }
}

impl EventLoopState for SimpleEventLoopState {
    fn request_shutdown(&mut self)
        ensures
            !final(self).running,
    {
        self.running = false;
    }
}

} // verus!
