//! The documents that the web overlay is asked to load, by number.

use vstd::prelude::*;

use crate::gpu::types::Presented;

verus! {

#[derive(Clone, Copy, Debug, PartialEq, Eq, Structural)]
pub struct Navigation {
    pub id: u64,
}

impl Navigation {
    pub fn new(id: u64) -> (r: Self)
        ensures
            r.id == id,
    {
        Navigation { id }
    }
}

/// A navigation whose document has reached the screen.
#[derive(Clone, Copy, Debug)]
pub struct NavigationPresented {
    navigation: Navigation,
}

impl NavigationPresented {
    pub closed spec fn of(self) -> Navigation {
        self.navigation
    }

    /// Made from the evidence of a presented frame, which it uses up.
    pub fn witnessed(navigation: Navigation, presented: Presented) -> (r: Self)
        ensures
            r.of() == navigation,
    {
        let _consumed = presented;
        NavigationPresented { navigation }
    }

    pub fn navigation(self) -> (r: Navigation)
        ensures
            r == self.of(),
    {
        self.navigation
    }
}

#[derive(Debug)]
pub enum WebEvent {
    ProbeFinished { cycle: u64, base: Option<String> },
    NavigationFailed(Navigation),
    FramePresented(NavigationPresented),
}

impl Clone for WebEvent {
    fn clone(&self) -> (r: Self)
        ensures
            r == *self,
    {
        match self {
            WebEvent::ProbeFinished { cycle, base } => WebEvent::ProbeFinished {
                cycle: *cycle,
                base: match base {
                    Some(b) => Some(b.clone()),
                    None => None,
                },
            },
            WebEvent::NavigationFailed(navigation) => WebEvent::NavigationFailed(*navigation),
            WebEvent::FramePresented(presented) => WebEvent::FramePresented(*presented),
        }
    }
}

} // verus!
