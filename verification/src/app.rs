//! The application core: the renderer's computed state and the pause flag.

use crate::state::State;
use vstd::prelude::*;

verus! {

/// The part of the application that decides what a tick of the event loop
/// does. The pause flag does not stop the event loop itself: it only says
/// whether the update and render steps run.
pub struct Application {
    pub state: State,
    pub paused: bool,
}

impl Application {
    /// A new application starts paused; the host resumes it.
    pub fn new(state: State) -> (app: Application)
        ensures
            app.state == state,
            app.paused,
    {
        Application { state, paused: true }
    }

    /// Pauses or resumes the update and render steps.
    pub fn set_paused(&mut self, paused: bool)
        ensures
            final(self).paused == paused,
            final(self).state == old(self).state,
    {
        self.paused = paused;
    }

    /// Whether the current tick runs the update and render steps: it does so
    /// exactly when the application is not paused.
    pub fn should_step(&self) -> (b: bool)
        ensures
            b == !self.paused,
    {
        !self.paused
    }
}

} // verus!
