use vstd::prelude::*;
use crate::infrastructure::NodeId;
use crate::model::Derive;

verus! {

/// A train route from an entry boundary to an exit boundary.
#[derive(Clone, Copy, Debug, PartialEq, Eq, Structural)]
pub struct Route {
    pub entry: NodeId,
    pub exit: NodeId,
}

/// The routes derived from the infrastructure.
#[derive(Clone, Debug, PartialEq, Eq)]
pub struct Interlocking {
    pub routes: Derive<Vec<Route>>,
}

pub open spec fn is_default_interlocking(i: Interlocking) -> bool {
    i.routes matches Derive::Done(r) && r@.len() == 0
}

impl Interlocking {
    pub fn new_default() -> (i: Interlocking)
        ensures
            is_default_interlocking(i),
    {
        Interlocking { routes: Derive::Done(Vec::new()) }
    }
}

} // verus!
