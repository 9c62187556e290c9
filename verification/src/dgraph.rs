use vstd::prelude::*;
use crate::infrastructure::{Pos, TrackId};

verus! {

/// A stretch of a track between two positions.
#[derive(Clone, Copy, Debug, PartialEq, Eq, Structural)]
pub struct Interval {
    pub track_idx: TrackId,
    pub p1: Pos,
    pub p2: Pos,
}

/// The detection graph derived from the infrastructure: the train
/// detection sections, each a list of edges, and the track interval of
/// each edge.
#[derive(Clone, Debug, PartialEq, Eq)]
pub struct DGraph {
    pub tvd_sections: Vec<(usize, Vec<usize>)>,
    pub edge_intervals: Vec<(usize, Interval)>,
}

pub open spec fn is_empty_dgraph(g: DGraph) -> bool {
    g.tvd_sections@.len() == 0 && g.edge_intervals@.len() == 0
}

impl Default for DGraph {
    fn default() -> (g: DGraph)
        ensures
            is_empty_dgraph(g),
    {
        DGraph { tvd_sections: Vec::new(), edge_intervals: Vec::new() }
    }
}

} // verus!
