//! Application state.
use vstd::prelude::*;

verus! {

/// Application state: a two-state machine that starts running and can only
/// be stopped.
pub struct App {
    /// Is the application running?
    pub running: bool,
}

impl Default for App {
    fn default() -> (app: Self)
        ensures
            app.running,
    {
        Self { running: true }
    }
}

impl App {
    /// A fresh application, running.
    pub fn new() -> (app: Self)
        ensures
            app.running,
    {
        Self { running: true }
    }

    /// Handles a tick. The state itself has nothing to update on a tick, and
    /// a shared borrow could not change it.
    pub fn tick(&self) {
    }

    /// Requests shutdown. Stopping is final: a stopped application stays
    /// stopped.
    pub fn quit(&mut self)
        ensures
            !final(self).running,
    {
        self.running = false;
    }
}

} // verus!
