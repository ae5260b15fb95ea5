use vstd::prelude::*;

verus! {

/// A flag that moves from "not navigated" to "navigated" once per run and
/// never back, so that the host navigates to the server at most once.
pub struct NavigationGate {
    navigated: bool,
}

impl NavigationGate {
    pub closed spec fn view(&self) -> bool {
        self.navigated
    }

    pub fn new() -> (r: NavigationGate)
        ensures
            !r.view(),
    {
        NavigationGate { navigated: false }
    }

    pub fn has_navigated(&self) -> (r: bool)
        ensures
            r == self.view(),
    {
        self.navigated
    }

    /// Records a navigation; true iff this is the first one.
    pub fn mark_navigated(&mut self) -> (r: bool)
        ensures
            r == !old(self).view(),
            final(self).view(),
    {
        let first = !self.navigated;
        self.navigated = true;
        first
    }
}

} // verus!
