//! State of the scene's small apps that the library keeps for them.
use vstd::prelude::*;
use std::collections::HashMap;

verus! {

/// The empty home scene.
pub struct Home {}

impl Home {
    pub fn new() -> (r: Home)
        ensures
            r == (Home {}),
    {
        Home {}
    }
}

/// The empty workshop scene.
pub struct Workshop {}

impl Workshop {
    pub fn new() -> (r: Workshop)
        ensures
            r == (Workshop {}),
    {
        Workshop {}
    }
}

/// What the halo menu keeps between sessions: which apps are switched on,
/// by name.
pub struct HaloState {
    pub active_apps: HashMap<String, bool>,
}

} // verus!
