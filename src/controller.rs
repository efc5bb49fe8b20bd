//! Dispatch of user-initiated actions. No action is defined yet, so every
//! action is handled without effect.
use vstd::prelude::*;

verus! {

/// A user-initiated action. No kind of action is defined yet, so an action
/// carries nothing.
#[derive(Debug, Clone, Copy, PartialEq, Eq)]
pub struct Action {}

/// Handles actions one at a time.
pub struct Controller {}

impl Controller {
    pub fn new() -> (c: Self)
        ensures
            c == (Controller {}),
    {
        Controller {}
    }

    /// Registers the handlers of user-initiated action events; there are none.
    pub fn set_action_event_handlers(&self) {
    }

    /// Handles one action; each succeeds.
    pub fn process_action(&mut self, _action: Action) -> (r: Result<(), ()>)
        ensures
            r == Ok::<(), ()>(()),
            *final(self) == *old(self),
    {
        Ok(())
    }
}

} // verus!
