//! Surface for a real rendering-engine embedding: the capability a
//! full deployment would drive for actual page loads. The in-scope
//! build keeps all per-tab state in the session registry, so this
//! handle carries no state of its own and its operations leave it
//! unchanged.

use vstd::prelude::*;

verus! {

/// A handle standing for one embedded engine instance.
pub struct ServoInstance {}

impl ServoInstance {
    /// A fresh engine handle.
    pub fn new() -> (r: ServoInstance)
        ensures
            r == (ServoInstance {  }),
    {
        ServoInstance {  }
    }

    /// Ask the engine to load a URL in this instance.
    pub fn navigate(&mut self, _url: &str)
        ensures
            *final(self) == *old(self),
    {
    }

    /// Ask the engine to step back in its own history.
    pub fn go_back(&mut self)
        ensures
            *final(self) == *old(self),
    {
    }

    /// Ask the engine to step forward in its own history.
    pub fn go_forward(&mut self)
        ensures
            *final(self) == *old(self),
    {
    }

    /// Ask the engine to reload the current page.
    pub fn refresh(&mut self)
        ensures
            *final(self) == *old(self),
    {
    }
}

impl Default for ServoInstance {
    fn default() -> (r: ServoInstance)
        ensures
            r == (ServoInstance {  }),
    {
        ServoInstance::new()
    }
}

} // verus!
