use vstd::prelude::*;
use crate::infrastructure::NodeId;
use crate::model::Derive;

verus! {

/// A point in time of a scenario, in the model's integer time unit.
pub type Time = i64;

/// A command given to the dispatcher.
#[derive(Clone, Copy, Debug, PartialEq, Eq, Structural)]
pub enum Command {
    /// Set the route with this index.
    Route(usize),
    /// Let the vehicle with the first index enter on the route with the second.
    Train(usize, usize),
}

/// A list of timed dispatch commands.
#[derive(Clone, Debug, PartialEq, Eq)]
pub struct Dispatch {
    pub commands: Vec<(Time, Command)>,
}

impl Default for Dispatch {
    fn default() -> (d: Dispatch)
        ensures
            d.commands@.len() == 0,
    {
        Dispatch { commands: Vec::new() }
    }
}

/// A visit of a movement to one of a set of alternative nodes.
#[derive(Clone, Debug, PartialEq, Eq)]
pub struct Visit {
    pub nodes: Vec<NodeId>,
}

impl Default for Visit {
    fn default() -> (v: Visit)
        ensures
            v.nodes@.len() == 0,
    {
        Visit { nodes: Vec::new() }
    }
}

/// A vehicle's movement through a list of visits.
#[derive(Clone, Debug, PartialEq, Eq)]
pub struct Movement {
    pub vehicle_ref: usize,
    pub visits: Vec<Visit>,
}

pub open spec fn is_default_movement(m: Movement) -> bool {
    m.vehicle_ref == 0 && m.visits@.len() == 0
}

impl Default for Movement {
    fn default() -> (m: Movement)
        ensures
            is_default_movement(m),
    {
        Movement { vehicle_ref: 0, visits: Vec::new() }
    }
}

/// A bound on the time between two visits, each given as a movement index
/// and a visit index.
#[derive(Clone, Copy, Debug, PartialEq, Eq)]
pub struct TimingSpec {
    pub visit_a: (usize, usize),
    pub visit_b: (usize, usize),
    pub time: Option<Time>,
}

/// Movements and timing bounds, from which dispatches are derived.
#[derive(Clone, Debug, PartialEq, Eq)]
pub struct Usage {
    pub movements: Vec<Movement>,
    pub timings: Vec<TimingSpec>,
}

pub open spec fn is_default_usage(u: Usage) -> bool {
    u.movements@.len() == 0 && u.timings@.len() == 0
}

impl Default for Usage {
    fn default() -> (u: Usage)
        ensures
            is_default_usage(u),
    {
        Usage { movements: Vec::new(), timings: Vec::new() }
    }
}

#[derive(Clone, Debug, PartialEq, Eq)]
pub enum Scenario {
    Dispatch(Dispatch),
    Usage(Usage, Derive<Vec<Dispatch>>),
}

/// The editing operations on the scenarios; the first index of each names
/// a scenario.
#[derive(Clone, Debug, PartialEq)]
pub enum ScenarioEdit {
    NewDispatch,
    AddDispatchCommand(usize, Time, Command),
    ModifyDispatchCommand(usize, usize, Option<(Time, Command)>),
    NewUsage,
    AddUsageMovement(usize),
    SetUsageMovementVehicle(usize, usize, usize),
    AddUsageMovementVisit(usize, usize),
    SetUsageMovementVisitNodes(usize, usize, usize, Vec<NodeId>),
    AddUsageTimingSpec(usize),
    SetUsageTimingSpec(usize, usize, usize, usize, usize, usize, Option<Time>),
}

} // verus!
