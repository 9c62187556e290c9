use vstd::prelude::*;
use crate::infrastructure::{EntityId, Pos};

verus! {

/// A point of the schematic drawing, in world coordinates.
pub type Pt = (i64, i64);

/// The schematic drawing that is derived from the infrastructure: a
/// polyline for each track, a point for each node, and the mileage marks.
#[derive(Clone, Debug, PartialEq, Eq)]
pub struct Schematic {
    pub lines: Vec<(EntityId, Vec<Pt>)>,
    pub points: Vec<(EntityId, Pt)>,
    pub pos_map: Vec<(i64, EntityId, Pos)>,
}

pub open spec fn is_empty_schematic(s: Schematic) -> bool {
    s.lines@.len() == 0 && s.points@.len() == 0 && s.pos_map@.len() == 0
}

impl Schematic {
    pub fn new_empty() -> (s: Schematic)
        ensures
            is_empty_schematic(s),
    {
        Schematic { lines: Vec::new(), points: Vec::new(), pos_map: Vec::new() }
    }
}

} // verus!
