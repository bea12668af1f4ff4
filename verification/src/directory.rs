//! The route directory: the owner of the current snapshot.

use crate::model::RouteInfoView;
use crate::snapshot::RouteSnapshot;
use vstd::prelude::*;

verus! {

/// The owner of the current mapping from short name to route. The mapping is
/// only ever exchanged whole.
pub struct RouteDirectory {
    current: RouteSnapshot,
}

impl View for RouteDirectory {
    type V = Map<Seq<char>, RouteInfoView>;

    closed spec fn view(&self) -> Map<Seq<char>, RouteInfoView> {
        self.current@
    }
}

impl RouteDirectory {
    /// A directory that holds the empty mapping.
    pub fn new() -> (directory: RouteDirectory)
        ensures
            directory@ == Map::<Seq<char>, RouteInfoView>::empty(),
    {
        RouteDirectory { current: RouteSnapshot::new() }
    }

    /// The current mapping, by value. What is returned is the caller's own:
    /// a later `replace` does not reach it.
    pub fn snapshot(&self) -> (copy: RouteSnapshot)
        ensures
            copy@ == self@,
    {
        self.current.clone()
    }

    /// Exchanges the stored mapping for a new one, whole.
    pub fn replace(&mut self, snapshot: RouteSnapshot)
        ensures
            final(self)@ == snapshot@,
    {
        self.current = snapshot;
    }
}

} // verus!
