use vstd::prelude::*;
use crate::dgraph::{DGraph, is_empty_dgraph};
use crate::infrastructure::{
    Dir, Entity, EntityId, Infrastructure, InfrastructureEdit, Node, NodeId, NodeType, Object, Port,
    Pos, Side, Track, TrackId, lemma_tracks_of_valid, spec_delete, spec_node, spec_num_ports,
    spec_other, spec_set_node_pos, spec_set_node_type, spec_set_track, spec_track, tracks_of,
};
use crate::interlocking::{Interlocking, is_default_interlocking};
use crate::issue::Issue;
use crate::scenario::{
    Dispatch, Movement, Scenario, ScenarioEdit, TimingSpec, Usage, Visit, is_default_movement,
};
use crate::schematic::{Schematic, is_empty_schematic};
use crate::vehicle::{Vehicle, default_vehicle, is_default_vehicle};
use crate::view::{InputDir, Selection, spec_default_view};
use crate::view;

verus! {

/// A value derived from the model in the background: not ready yet,
/// ready, or failed with a message.
#[derive(Clone, Debug, PartialEq, Eq)]
pub enum Derive<T> {
    Wait,
    Done(T),
    Failed(String),
}

impl<T: Default> Default for Derive<T> {
    fn default() -> (d: Self)
        ensures
            d matches Derive::Done(v) && call_ensures(T::default, (), v),
    {
        Derive::Done(T::default())
    }
}

impl<T> Derive<T> {
    /// The derived value, where it is ready.
    pub fn get(&self) -> (r: Option<&T>)
        ensures
            match r {
                Some(v) => *self == Derive::Done(*v),
                None => !(*self is Done),
            },
    {
        if let Derive::Done(val) = self {
            Some(val)
        } else {
            None
        }
    }
}

/// What an edit changed, so that the front-end knows what to recompute.
#[derive(Clone, Copy, Debug, PartialEq, Eq, Structural)]
pub enum ModelUpdateResult {
    NoChange,
    InfrastructureChanged,
    InterlockingChanged,
    ScenarioChanged(usize),
}

/// An edit of the model.
#[derive(Clone, Debug, PartialEq)]
pub enum ModelAction {
    Inf(InfrastructureEdit),
    Scenario(ScenarioEdit),
}

/// The document of the editor: the infrastructure, what is derived from
/// it, the view, and the scenarios and vehicles.
#[derive(Clone, Debug)]
pub struct Model {
    pub inf: Infrastructure,
    pub schematic: Derive<Schematic>,
    pub view: view::View,
    pub interlocking: Interlocking,
    pub scenarios: Vec<Scenario>,
    pub vehicles: Vec<Vehicle>,
    pub dgraph: Derive<DGraph>,
}

/// How far one press of an arrow key moves the view centre, in hundredths
/// of the world unit: exactly 0.15 of the view's width.
pub open spec fn view_step(zoom: u64) -> int {
    zoom as int * 15
}

/// The centre of the view after moving it one step in direction `d`.
pub open spec fn moved_center(c: (i64, i64), zoom: u64, d: InputDir) -> (int, int) {
    let s = view_step(zoom);
    match d {
        InputDir::Left => (c.0 - s, c.1 as int),
        InputDir::Right => (c.0 + s, c.1 as int),
        InputDir::Up => (c.0 as int, c.1 + s),
        InputDir::Down => (c.0 as int, c.1 - s),
    }
}

/// Whether one step of the view in direction `d` stays within the range of
/// world coordinates, as `Model::move_view` needs.
pub fn moved_center_fits(c: (i64, i64), zoom: u64, d: InputDir) -> (b: bool)
    ensures
        b == (in_i64(moved_center(c, zoom, d).0) && in_i64(moved_center(c, zoom, d).1)),
{
    let step: i128 = (zoom as i128) * 15;
    let (x, y) = (c.0 as i128, c.1 as i128);
    let (nx, ny) = match d {
        InputDir::Left => (x - step, y),
        InputDir::Right => (x + step, y),
        InputDir::Up => (x, y + step),
        InputDir::Down => (x, y - step),
    };
    i64::MIN as i128 <= nx && nx <= i64::MAX as i128 && i64::MIN as i128 <= ny && ny <= i64::MAX as i128
}

pub open spec fn is_empty_model(m: Model) -> bool {
    &&& m.inf@.len() == 0
    &&& m.schematic matches Derive::Done(s) && is_empty_schematic(s)
    &&& m.view == spec_default_view()
    &&& is_default_interlocking(m.interlocking)
    &&& m.scenarios@.len() == 0
    &&& m.vehicles@.len() == 1
    &&& is_default_vehicle(m.vehicles@[0])
    &&& m.dgraph matches Derive::Done(g) && is_empty_dgraph(g)
}

pub open spec fn track_ref_err() -> Seq<char> {
    "Track ref err"@
}

pub open spec fn node_ref_err() -> Seq<char> {
    "Node ref err"@
}

pub open spec fn ports_err() -> Seq<char> {
    "Nodes must have 1 port."@
}

pub open spec fn mismatch_err() -> Seq<char> {
    "Mismatching nodes for joining"@
}

/// `r` is an error with the message `msg`.
pub open spec fn is_err_with(r: Result<ModelUpdateResult, String>, msg: Seq<char>) -> bool {
    r matches Err(e) && e@ == msg
}

pub open spec fn in_i64(x: int) -> bool {
    i64::MIN <= x <= i64::MAX
}

/// The entities after inserting a switch of type `ty` at `p` on track
/// `track_id`, with a branch of length `l`. The switch takes a fresh slot;
/// where the track exists, the track is cut at the switch, the part beyond
/// it becomes a new straight track, and a branch track ends at a new buffer
/// stop. A switch facing up cuts the track's end and branches ahead of it;
/// one facing down cuts the track's start and branches behind it.
pub open spec fn inserted_switch(
    s: Seq<Option<Entity>>,
    track_id: int,
    p: Pos,
    ty: NodeType,
    l: Pos,
) -> Seq<Option<Entity>> {
    let new = s.len() as usize;
    let s1 = s.push(Some(Entity::Node(Node(p, ty))));
    match spec_track(s, track_id) {
        None => s1,
        Some(t) => match ty {
            NodeType::Switch(Dir::Up, side) => s1.update(
                track_id,
                Some(Entity::Track(Track { start_node: t.start_node, end_node: (new, Port { dir: Dir::Down, course: None }) })),
            ).push(
                Some(Entity::Track(Track { start_node: (new, Port { dir: Dir::Up, course: Some(spec_other(side)) }), end_node: t.end_node })),
            ).push(Some(Entity::Node(Node((p + l) as i64, NodeType::BufferStop)))).push(
                Some(Entity::Track(Track { start_node: (new, Port { dir: Dir::Up, course: Some(side) }), end_node: ((new + 2) as usize, Port { dir: Dir::Down, course: None }) })),
            ),
            NodeType::Switch(Dir::Down, side) => s1.update(
                track_id,
                Some(Entity::Track(Track { start_node: (new, Port { dir: Dir::Up, course: None }), end_node: t.end_node })),
            ).push(
                Some(Entity::Track(Track { start_node: t.start_node, end_node: (new, Port { dir: Dir::Down, course: Some(spec_other(side)) }) })),
            ).push(Some(Entity::Node(Node((p - l) as i64, NodeType::BufferStop)))).push(
                Some(Entity::Track(Track { start_node: ((new + 2) as usize, Port { dir: Dir::Up, course: None }), end_node: (new, Port { dir: Dir::Down, course: Some(side) }) })),
            ),
            _ => s1,
        },
    }
}

/// The last of the listed tracks that ends at node `a` or `b`, with that node.
pub open spec fn last_ending_at(ts: Seq<(TrackId, Track)>, a: NodeId, b: NodeId) -> Option<(TrackId, NodeId)>
    decreases ts.len(),
{
    if ts.len() == 0 {
        None
    } else if ts.last().1.end_node.0 == a || ts.last().1.end_node.0 == b {
        Some((ts.last().0, ts.last().1.end_node.0))
    } else {
        last_ending_at(ts.drop_last(), a, b)
    }
}

/// The last of the listed tracks that starts at node `a` or `b`, with that node.
pub open spec fn last_starting_at(ts: Seq<(TrackId, Track)>, a: NodeId, b: NodeId) -> Option<(TrackId, NodeId)>
    decreases ts.len(),
{
    if ts.len() == 0 {
        None
    } else if ts.last().1.start_node.0 == a || ts.last().1.start_node.0 == b {
        Some((ts.last().0, ts.last().1.start_node.0))
    } else {
        last_starting_at(ts.drop_last(), a, b)
    }
}

/// The entities after joining track `t1`, which ends at node `m1`, with
/// track `t2`, which starts at node `m2`: `t1` is extended to where `t2`
/// ends, and `t2`, `m1` and `m2` are deleted.
pub open spec fn joined(s: Seq<Option<Entity>>, t1: TrackId, m1: NodeId, t2: TrackId, m2: NodeId) -> Seq<Option<Entity>> {
    let tr1 = spec_track(s, t1 as int).unwrap();
    let tr2 = spec_track(s, t2 as int).unwrap();
    let s1 = spec_set_track(s, t1 as int, Track { start_node: tr1.start_node, end_node: tr2.end_node });
    spec_delete(spec_delete(spec_delete(s1, EntityId::Track(t2)), EntityId::Node(m1)), EntityId::Node(m2))
}

/// The entities and the result after joining nodes `n1` and `n2`.
pub open spec fn join_post(s: Seq<Option<Entity>>, n1: NodeId, n2: NodeId, news: Seq<Option<Entity>>, r: Result<ModelUpdateResult, String>) -> bool {
    match (spec_node(s, n1 as int), spec_node(s, n2 as int)) {
        (Some(a), Some(b)) => if spec_num_ports(a.1) != 1 || spec_num_ports(b.1) != 1 {
            is_err_with(r, ports_err()) && news == s
        } else {
            let ts = tracks_of(s, s.len() as int);
            match (last_ending_at(ts, n1, n2), last_starting_at(ts, n1, n2)) {
                (Some((t1, m1)), Some((t2, m2))) => r == Ok::<ModelUpdateResult, String>(ModelUpdateResult::InfrastructureChanged)
                    && news == joined(s, t1, m1, t2, m2),
                _ => is_err_with(r, mismatch_err()) && news == s,
            }
        },
        _ => is_err_with(r, node_ref_err()) && news == s,
    }
}

/// What an infrastructure edit needs: a node to insert is a switch, and a
/// position that an edit computes fits in a `Pos`.
pub open spec fn inf_edit_allowed(m: Model, e: InfrastructureEdit) -> bool {
    match e {
        InfrastructureEdit::InsertNode(t, p, ty, l) => match ty {
            NodeType::Switch(Dir::Up, _) => spec_track(m.inf@, t as int) is Some ==> in_i64(p + l),
            NodeType::Switch(Dir::Down, _) => spec_track(m.inf@, t as int) is Some ==> in_i64(p - l),
            _ => false,
        },
        InfrastructureEdit::ExtendTrack(id, len) => match spec_node(m.inf@, id as int) {
            Some(n) => in_i64(n.0 + len),
            None => true,
        },
        _ => true,
    }
}

/// The model and result after an infrastructure edit.
pub open spec fn inf_edit_post(old: Model, new: Model, e: InfrastructureEdit, r: Result<ModelUpdateResult, String>) -> bool {
    let s = old.inf@;
    let ok = r == Ok::<ModelUpdateResult, String>(ModelUpdateResult::InfrastructureChanged);
    &&& new.schematic == old.schematic
    &&& new.interlocking == old.interlocking
    &&& new.scenarios == old.scenarios
    &&& new.vehicles == old.vehicles
    &&& new.dgraph == old.dgraph
    &&& new.view.viewport == old.view.viewport
    &&& new.view.hot_route == old.view.hot_route
    &&& match e {
        InfrastructureEdit::InsertNode(t, p, ty, l) => {
            &&& new.inf@ == inserted_switch(s, t as int, p, ty, l)
            &&& if spec_track(s, t as int) is Some {
                ok && new.view.selection == Selection::Entity(EntityId::Node(s.len() as usize))
            } else {
                is_err_with(r, track_ref_err()) && new.view.selection == old.view.selection
            }
        },
        InfrastructureEdit::JoinNodes(n1, n2) => join_post(s, n1, n2, new.inf@, r) && new.view.selection == old.view.selection,
        _ => ok && new.view.selection == old.view.selection && new.inf@ == match e {
            InfrastructureEdit::NewTrack(p1, p2) => s.push(Some(Entity::Node(Node(p1, NodeType::Macro(None))))).push(
                Some(Entity::Node(Node(p2, NodeType::Macro(None)))),
            ).push(
                Some(Entity::Track(Track {
                    start_node: (s.len() as usize, Port { dir: Dir::Up, course: None }),
                    end_node: ((s.len() + 1) as usize, Port { dir: Dir::Down, course: None }),
                })),
            ),
            InfrastructureEdit::InsertObject(t, p, o) => s.push(Some(Entity::Object(Object(t, p, o)))),
            InfrastructureEdit::ToggleBufferMacro(id) => match spec_node(s, id as int) {
                Some(Node(_, NodeType::BufferStop)) => spec_set_node_type(s, id as int, NodeType::Macro(None)),
                Some(Node(_, NodeType::Macro(_))) => spec_set_node_type(s, id as int, NodeType::BufferStop),
                _ => s,
            },
            InfrastructureEdit::ExtendTrack(id, len) => match spec_node(s, id as int) {
                Some(n) => spec_set_node_pos(s, id as int, (n.0 + len) as i64),
                None => s,
            },
            _ => s,
        },
    }
}

/// The track that `last_ending_at` finds is one of the listed tracks.
pub proof fn lemma_last_ending_listed(ts: Seq<(TrackId, Track)>, a: NodeId, b: NodeId)
    ensures
        last_ending_at(ts, a, b) matches Some((t, m)) ==> exists|j: int|
            0 <= j < ts.len() && #[trigger] ts[j].0 == t && ts[j].1.end_node.0 == m,
    decreases ts.len(),
{
    if ts.len() > 0 {
        lemma_last_ending_listed(ts.drop_last(), a, b);
        if let Some((t, m)) = last_ending_at(ts.drop_last(), a, b) {
            if !(ts.last().1.end_node.0 == a || ts.last().1.end_node.0 == b) {
                let j = choose|j: int|
                    0 <= j < ts.drop_last().len() && #[trigger] ts.drop_last()[j].0 == t
                        && ts.drop_last()[j].1.end_node.0 == m;
                assert(ts[j] == ts.drop_last()[j]);
            }
        }
        if ts.last().1.end_node.0 == a || ts.last().1.end_node.0 == b {
            assert(ts[ts.len() - 1].0 == ts.last().0);
        }
    }
}

/// The track that `last_starting_at` finds is one of the listed tracks.
pub proof fn lemma_last_starting_listed(ts: Seq<(TrackId, Track)>, a: NodeId, b: NodeId)
    ensures
        last_starting_at(ts, a, b) matches Some((t, m)) ==> exists|j: int|
            0 <= j < ts.len() && #[trigger] ts[j].0 == t && ts[j].1.start_node.0 == m,
    decreases ts.len(),
{
    if ts.len() > 0 {
        lemma_last_starting_listed(ts.drop_last(), a, b);
        if let Some((t, m)) = last_starting_at(ts.drop_last(), a, b) {
            if !(ts.last().1.start_node.0 == a || ts.last().1.start_node.0 == b) {
                let j = choose|j: int|
                    0 <= j < ts.drop_last().len() && #[trigger] ts.drop_last()[j].0 == t
                        && ts.drop_last()[j].1.start_node.0 == m;
                assert(ts[j] == ts.drop_last()[j]);
            }
        }
        if ts.last().1.start_node.0 == a || ts.last().1.start_node.0 == b {
            assert(ts[ts.len() - 1].0 == ts.last().0);
        }
    }
}

/// `a` and `b` agree everywhere but at `i`.
pub open spec fn same_except<T>(a: Seq<T>, b: Seq<T>, i: int) -> bool {
    &&& a.len() == b.len()
    &&& forall|j: int| 0 <= j < a.len() && j != i ==> #[trigger] a[j] == #[trigger] b[j]
}

/// The scenarios after changing the usage scenario at `si` from `u1` to a
/// `u2` with `step(u1, u2)`; where `si` names no usage scenario, nothing
/// changes.
pub open spec fn usage_edited(
    old: Seq<Scenario>,
    new: Seq<Scenario>,
    si: int,
    step: spec_fn(Usage, Usage) -> bool,
) -> bool {
    if 0 <= si < old.len() && old[si] is Usage {
        &&& same_except(old, new, si)
        &&& new[si] is Usage
        &&& new[si]->Usage_1 == old[si]->Usage_1
        &&& step(old[si]->Usage_0, new[si]->Usage_0)
    } else {
        new == old
    }
}

/// The movements after changing the movement at `mi` from `m1` to an `m2`
/// with `step(m1, m2)`; where there is none at `mi`, nothing changes.
pub open spec fn movement_edited(
    old: Seq<Movement>,
    new: Seq<Movement>,
    mi: int,
    step: spec_fn(Movement, Movement) -> bool,
) -> bool {
    if 0 <= mi < old.len() {
        same_except(old, new, mi) && step(old[mi], new[mi])
    } else {
        new == old
    }
}

/// `s2` is `s1` with one more element at the end, of which `p` holds.
pub open spec fn pushed<T>(s1: Seq<T>, s2: Seq<T>, p: spec_fn(T) -> bool) -> bool {
    s2.len() == s1.len() + 1 && s2.drop_last() == s1 && p(s2.last())
}

pub open spec fn scenario_changed(r: Result<ModelUpdateResult, String>, i: usize) -> bool {
    r == Ok::<ModelUpdateResult, String>(ModelUpdateResult::ScenarioChanged(i))
}

/// The scenarios and the result after a scenario edit.
pub open spec fn scenario_edit_post(old: Model, new: Model, e: ScenarioEdit, r: Result<ModelUpdateResult, String>) -> bool {
    let s = old.scenarios@;
    let n = new.scenarios@;
    &&& new == (Model { scenarios: new.scenarios, ..old })
    &&& match e {
        ScenarioEdit::NewDispatch => scenario_changed(r, s.len() as usize) && pushed(
            s,
            n,
            |sc: Scenario| sc matches Scenario::Dispatch(d) && d.commands@.len() == 0,
        ),
        ScenarioEdit::AddDispatchCommand(i, time, cmd) => scenario_changed(r, i) && if i < s.len()
            && s[i as int] is Dispatch {
            &&& same_except(s, n, i as int)
            &&& n[i as int] is Dispatch
            &&& n[i as int]->Dispatch_0.commands@ == s[i as int]->Dispatch_0.commands@.push((time, cmd))
        } else {
            n == s
        },
        ScenarioEdit::ModifyDispatchCommand(i, _, _) => scenario_changed(r, i) && n == s,
        ScenarioEdit::NewUsage => scenario_changed(r, s.len() as usize) && pushed(
            s,
            n,
            |sc: Scenario|
                sc matches Scenario::Usage(u, d) && u.movements@.len() == 0 && u.timings@.len() == 0
                    && (d matches Derive::Done(v) && v@.len() == 0),
        ),
        ScenarioEdit::AddUsageMovement(si) => scenario_changed(r, si) && usage_edited(
            s,
            n,
            si as int,
            |u1: Usage, u2: Usage|
                u2.timings@ == u1.timings@ && pushed(u1.movements@, u2.movements@, |m: Movement| is_default_movement(m)),
        ),
        ScenarioEdit::SetUsageMovementVehicle(si, mi, vi) => scenario_changed(r, si) && usage_edited(
            s,
            n,
            si as int,
            |u1: Usage, u2: Usage|
                u2.timings@ == u1.timings@ && movement_edited(
                    u1.movements@,
                    u2.movements@,
                    mi as int,
                    |m1: Movement, m2: Movement| m2 == Movement { vehicle_ref: vi, visits: m1.visits },
                ),
        ),
        ScenarioEdit::AddUsageMovementVisit(si, mi) => scenario_changed(r, si) && usage_edited(
            s,
            n,
            si as int,
            |u1: Usage, u2: Usage|
                u2.timings@ == u1.timings@ && movement_edited(
                    u1.movements@,
                    u2.movements@,
                    mi as int,
                    |m1: Movement, m2: Movement|
                        m2.vehicle_ref == m1.vehicle_ref && pushed(m1.visits@, m2.visits@, |v: Visit| v.nodes@.len() == 0),
                ),
        ),
        ScenarioEdit::SetUsageMovementVisitNodes(si, mi, vi, nodes) => scenario_changed(r, si) && usage_edited(
            s,
            n,
            si as int,
            |u1: Usage, u2: Usage|
                u2.timings@ == u1.timings@ && movement_edited(
                    u1.movements@,
                    u2.movements@,
                    mi as int,
                    |m1: Movement, m2: Movement|
                        m2.vehicle_ref == m1.vehicle_ref && if vi < m1.visits@.len() {
                            m2.visits@ == m1.visits@.update(vi as int, Visit { nodes })
                        } else {
                            m2.visits@ == m1.visits@
                        },
                ),
        ),
        ScenarioEdit::AddUsageTimingSpec(si) => scenario_changed(r, si) && usage_edited(
            s,
            n,
            si as int,
            |u1: Usage, u2: Usage|
                u2.movements@ == u1.movements@ && u2.timings@ == u1.timings@.push(
                    TimingSpec { visit_a: (0, 0), visit_b: (0, 0), time: None },
                ),
        ),
        ScenarioEdit::SetUsageTimingSpec(si, ti, am, av, bm, bv, time) => scenario_changed(r, si) && usage_edited(
            s,
            n,
            si as int,
            |u1: Usage, u2: Usage|
                u2.movements@ == u1.movements@ && if ti < u1.timings@.len() {
                    u2.timings@ == u1.timings@.update(
                        ti as int,
                        TimingSpec { visit_a: (am, av), visit_b: (bm, bv), time },
                    )
                } else {
                    u2.timings@ == u1.timings@
                },
        ),
    }
}

/// What an edit needs (see `inf_edit_allowed`); scenario edits need nothing.
pub open spec fn handle_event_allowed(m: Model, a: ModelAction) -> bool {
    match a {
        ModelAction::Inf(ie) => inf_edit_allowed(m, ie),
        ModelAction::Scenario(_) => true,
    }
}

/// The model and result after an edit.
pub open spec fn handle_event_post(old: Model, new: Model, a: ModelAction, r: Result<ModelUpdateResult, String>) -> bool {
    match a {
        ModelAction::Inf(ie) => inf_edit_post(old, new, ie, r),
        ModelAction::Scenario(se) => scenario_edit_post(old, new, se, r),
    }
}

/// What `integrate` reports for the result of an edit: the change, or no
/// change where the edit failed.
pub open spec fn reported(r: Result<ModelUpdateResult, String>) -> ModelUpdateResult {
    match r {
        Ok(u) => u,
        Err(_) => ModelUpdateResult::NoChange,
    }
}

impl Model {
    /// A model with no infrastructure and no scenarios, and the default vehicle.
    pub fn new_empty() -> (m: Model)
        ensures
            is_empty_model(m),
    {
        let dgraph: Derive<DGraph> = Derive::Done(DGraph::default());
        let mut vehicles: Vec<Vehicle> = Vec::new();
        vehicles.push(default_vehicle());
        Model {
            inf: Infrastructure::new_empty(),
            schematic: Derive::Done(Schematic::new_empty()),
            view: view::View::new_default(),
            interlocking: Interlocking::new_default(),
            dgraph,
            scenarios: Vec::new(),
            vehicles,
        }
    }

    fn handle_inf_edit(&mut self, ie: InfrastructureEdit) -> (r: Result<ModelUpdateResult, String>)
        requires
            inf_edit_allowed(*old(self), ie),
        ensures
            inf_edit_post(*old(self), *final(self), ie, r),
    {
        match ie {
            InfrastructureEdit::Invalidate => {},
            InfrastructureEdit::NewTrack(p1, p2) => {
                let i1 = self.inf.new_node(Node(p1, NodeType::Macro(None)));
                let i2 = self.inf.new_node(Node(p2, NodeType::Macro(None)));
                let _t = self.inf.new_track(
                    Track {
                        start_node: (i1, Port { dir: Dir::Up, course: None }),
                        end_node: (i2, Port { dir: Dir::Down, course: None }),
                    },
                );
            },
            InfrastructureEdit::InsertObject(t, p, obj) => {
                let _id = self.inf.new_object(Object(t, p, obj));
            },
            InfrastructureEdit::ToggleBufferMacro(node_id) => {
                let new_type = match self.inf.get_node(&node_id) {
                    Some(Node(_, NodeType::BufferStop)) => Some(NodeType::Macro(None)),
                    Some(Node(_, NodeType::Macro(_))) => Some(NodeType::BufferStop),
                    _ => None,
                };
                if let Some(t) = new_type {
                    self.inf.set_node_type(node_id, t);
                }
            },
            InfrastructureEdit::InsertNode(track_id, p, node, l) => {
                let (dir, side) = match &node {
                    NodeType::Switch(d, s) => (*d, *s),
                    _ => unreached(),
                };
                let straight_side = side.other();
                let branch_side = side;
                let new = self.inf.new_node(Node(p, node));
                let t = match self.inf.get_track(&track_id) {
                    Some(t) => *t,
                    None => {
                        return Err("Track ref err".to_string());
                    },
                };
                match dir {
                    Dir::Up => {
                        let old_end = t.end_node;
                        self.inf.set_track(
                            track_id,
                            Track { start_node: t.start_node, end_node: (new, Port { dir: Dir::Down, course: None }) },
                        );
                        let _straight = self.inf.new_track(
                            Track {
                                start_node: (new, Port { dir: Dir::Up, course: Some(straight_side) }),
                                end_node: old_end,
                            },
                        );
                        let branch_end = self.inf.new_node(Node(p + l, NodeType::BufferStop));
                        let _branch = self.inf.new_track(
                            Track {
                                start_node: (new, Port { dir: Dir::Up, course: Some(branch_side) }),
                                end_node: (branch_end, Port { dir: Dir::Down, course: None }),
                            },
                        );
                    },
                    Dir::Down => {
                        let old_start = t.start_node;
                        self.inf.set_track(
                            track_id,
                            Track { start_node: (new, Port { dir: Dir::Up, course: None }), end_node: t.end_node },
                        );
                        let _straight = self.inf.new_track(
                            Track {
                                start_node: old_start,
                                end_node: (new, Port { dir: Dir::Down, course: Some(straight_side) }),
                            },
                        );
                        let branch_start = self.inf.new_node(Node(p - l, NodeType::BufferStop));
                        let _branch = self.inf.new_track(
                            Track {
                                start_node: (branch_start, Port { dir: Dir::Up, course: None }),
                                end_node: (new, Port { dir: Dir::Down, course: Some(branch_side) }),
                            },
                        );
                    },
                }
                self.view.selection = Selection::Entity(EntityId::Node(new));
            },
            InfrastructureEdit::JoinNodes(n1, n2) => {
                return self.join_nodes(n1, n2);
            },
            InfrastructureEdit::ExtendTrack(node_id, length) => {
                if let Some(Node(node_pos, _)) = self.inf.get_node(&node_id) {
                    let new_pos = *node_pos + length;
                    self.inf.set_node_pos(node_id, new_pos);
                }
            },
        }
        Ok(ModelUpdateResult::InfrastructureChanged)
    }

    fn join_nodes(&mut self, n1: NodeId, n2: NodeId) -> (r: Result<ModelUpdateResult, String>)
        ensures
            join_post(old(self).inf@, n1, n2, final(self).inf@, r),
            *final(self) == (Model { inf: final(self).inf, ..*old(self) }),
    {
        let n1_ports = match self.inf.get_node(&n1) {
            Some(Node(_, n1_obj)) => n1_obj.num_ports(),
            None => {
                return Err("Node ref err".to_string());
            },
        };
        let n2_ports = match self.inf.get_node(&n2) {
            Some(Node(_, n2_obj)) => n2_obj.num_ports(),
            None => {
                return Err("Node ref err".to_string());
            },
        };
        if n1_ports != 1 || n2_ports != 1 {
            return Err("Nodes must have 1 port.".to_string());
        }
        let mut lo_track: Option<(TrackId, NodeId)> = None;
        let mut hi_track: Option<(TrackId, NodeId)> = None;
        let tracks = self.inf.iter_tracks();
        let ghost ts = tracks@;
        let mut i: usize = 0;
        while i < tracks.len()
            invariant
                ts == tracks@,
                i <= ts.len(),
                lo_track == last_ending_at(ts.take(i as int), n1, n2),
                hi_track == last_starting_at(ts.take(i as int), n1, n2),
            decreases ts.len() - i,
        {
            let (track_id, track) = tracks[i];
            if track.start_node.0 == n1 {
                hi_track = Some((track_id, n1));
            }
            if track.start_node.0 == n2 {
                hi_track = Some((track_id, n2));
            }
            if track.end_node.0 == n1 {
                lo_track = Some((track_id, n1));
            }
            if track.end_node.0 == n2 {
                lo_track = Some((track_id, n2));
            }
            assert(ts.take(i + 1).drop_last() == ts.take(i as int));
            i += 1;
        }
        assert(ts.take(ts.len() as int) == ts);
        proof {
            assert(self.inf.entities@.len() == self.inf.entities.len());
            lemma_tracks_of_valid(old(self).inf@, old(self).inf@.len() as int);
            lemma_last_ending_listed(ts, n1, n2);
            lemma_last_starting_listed(ts, n1, n2);
        }
        match (lo_track, hi_track) {
            (Some((t1, m1)), Some((t2, m2))) => {
                let end_node = match self.inf.get_track(&t2) {
                    Some(t) => t.end_node,
                    None => unreached(),
                };
                let start_node = match self.inf.get_track(&t1) {
                    Some(t) => t.start_node,
                    None => unreached(),
                };
                self.inf.set_track(t1, Track { start_node, end_node });
                self.inf.delete(EntityId::Track(t2));
                self.inf.delete(EntityId::Node(m1));
                self.inf.delete(EntityId::Node(m2));
                Ok(ModelUpdateResult::InfrastructureChanged)
            },
            _ => Err("Mismatching nodes for joining".to_string()),
        }
    }

    /// Takes the usage scenario at `si` out of the list, where there is one.
    fn take_usage(&mut self, si: usize) -> (r: Option<(Usage, Derive<Vec<Dispatch>>)>)
        ensures
            match r {
                Some((u, d)) => {
                    &&& si < old(self).scenarios@.len()
                    &&& old(self).scenarios@[si as int] == Scenario::Usage(u, d)
                    &&& same_except(old(self).scenarios@, final(self).scenarios@, si as int)
                },
                None => {
                    &&& !(si < old(self).scenarios@.len() && old(self).scenarios@[si as int] is Usage)
                    &&& final(self).scenarios@ == old(self).scenarios@
                },
            },
            *final(self) == (Model { scenarios: final(self).scenarios, ..*old(self) }),
    {
        if si < self.scenarios.len() {
            let mut sc = Scenario::Dispatch(Dispatch { commands: Vec::new() });
            self.scenarios.set_and_swap(si, &mut sc);
            match sc {
                Scenario::Usage(u, d) => Some((u, d)),
                other => {
                    self.scenarios.set(si, other);
                    assert(self.scenarios@ =~= old(self).scenarios@);
                    None
                },
            }
        } else {
            None
        }
    }

    /// Takes the movement at `mi` out of the list, where there is one.
    fn take_movement(movements: &mut Vec<Movement>, mi: usize) -> (r: Option<Movement>)
        ensures
            match r {
                Some(m) => {
                    &&& mi < old(movements)@.len()
                    &&& old(movements)@[mi as int] == m
                    &&& same_except(old(movements)@, final(movements)@, mi as int)
                },
                None => mi >= old(movements)@.len() && final(movements)@ == old(movements)@,
            },
    {
        if mi < movements.len() {
            let mut m = Movement { vehicle_ref: 0, visits: Vec::new() };
            movements.set_and_swap(mi, &mut m);
            Some(m)
        } else {
            None
        }
    }

    fn handle_scenario_edit(&mut self, se: ScenarioEdit) -> (r: Result<ModelUpdateResult, String>)
        ensures
            scenario_edit_post(*old(self), *final(self), se, r),
    {
        match se {
            ScenarioEdit::NewDispatch => {
                let i = self.scenarios.len();
                self.scenarios.push(Scenario::Dispatch(Dispatch::default()));
                assert(self.scenarios@.drop_last() =~= old(self).scenarios@);
                Ok(ModelUpdateResult::ScenarioChanged(i))
            },
            ScenarioEdit::AddDispatchCommand(i, time, cmd) => {
                if i < self.scenarios.len() {
                    let mut sc = Scenario::Dispatch(Dispatch { commands: Vec::new() });
                    self.scenarios.set_and_swap(i, &mut sc);
                    match sc {
                        Scenario::Dispatch(mut d) => {
                            d.commands.push((time, cmd));
                            self.scenarios.set(i, Scenario::Dispatch(d));
                        },
                        other => {
                            self.scenarios.set(i, other);
                            assert(self.scenarios@ =~= old(self).scenarios@);
                        },
                    }
                }
                Ok(ModelUpdateResult::ScenarioChanged(i))
            },
            ScenarioEdit::ModifyDispatchCommand(i, _cmd_idx, _new) => Ok(ModelUpdateResult::ScenarioChanged(i)),
            ScenarioEdit::NewUsage => {
                let i = self.scenarios.len();
                self.scenarios.push(Scenario::Usage(Usage::default(), Derive::Done(Vec::new())));
                assert(self.scenarios@.drop_last() =~= old(self).scenarios@);
                Ok(ModelUpdateResult::ScenarioChanged(i))
            },
            ScenarioEdit::AddUsageMovement(si) => {
                if let Some((mut usage, d)) = self.take_usage(si) {
                    let ghost m0 = usage.movements@;
                    usage.movements.push(Movement::default());
                    assert(usage.movements@.drop_last() =~= m0);
                    self.scenarios.set(si, Scenario::Usage(usage, d));
                }
                Ok(ModelUpdateResult::ScenarioChanged(si))
            },
            ScenarioEdit::SetUsageMovementVehicle(si, mi, vi) => {
                if let Some((mut usage, d)) = self.take_usage(si) {
                    if let Some(mut movement) = Self::take_movement(&mut usage.movements, mi) {
                        movement.vehicle_ref = vi;
                        usage.movements.set(mi, movement);
                    }
                    self.scenarios.set(si, Scenario::Usage(usage, d));
                }
                Ok(ModelUpdateResult::ScenarioChanged(si))
            },
            ScenarioEdit::AddUsageMovementVisit(si, mi) => {
                if let Some((mut usage, d)) = self.take_usage(si) {
                    if let Some(mut movement) = Self::take_movement(&mut usage.movements, mi) {
                        let ghost v0 = movement.visits@;
                        movement.visits.push(Visit::default());
                        assert(movement.visits@.drop_last() =~= v0);
                        usage.movements.set(mi, movement);
                    }
                    self.scenarios.set(si, Scenario::Usage(usage, d));
                }
                Ok(ModelUpdateResult::ScenarioChanged(si))
            },
            ScenarioEdit::SetUsageMovementVisitNodes(si, mi, vi, nodes) => {
                if let Some((mut usage, d)) = self.take_usage(si) {
                    if let Some(mut movement) = Self::take_movement(&mut usage.movements, mi) {
                        if vi < movement.visits.len() {
                            movement.visits.set(vi, Visit { nodes });
                        }
                        usage.movements.set(mi, movement);
                    }
                    self.scenarios.set(si, Scenario::Usage(usage, d));
                }
                Ok(ModelUpdateResult::ScenarioChanged(si))
            },
            ScenarioEdit::AddUsageTimingSpec(si) => {
                if let Some((mut usage, d)) = self.take_usage(si) {
                    usage.timings.push(TimingSpec { visit_a: (0, 0), visit_b: (0, 0), time: None });
                    self.scenarios.set(si, Scenario::Usage(usage, d));
                }
                Ok(ModelUpdateResult::ScenarioChanged(si))
            },
            ScenarioEdit::SetUsageTimingSpec(si, ti, am, av, bm, bv, time) => {
                if let Some((mut usage, d)) = self.take_usage(si) {
                    if ti < usage.timings.len() {
                        usage.timings.set(ti, TimingSpec { visit_a: (am, av), visit_b: (bm, bv), time });
                    }
                    self.scenarios.set(si, Scenario::Usage(usage, d));
                }
                Ok(ModelUpdateResult::ScenarioChanged(si))
            },
        }
    }

    /// Whether `handle_event` can take `action` on this model: a node to
    /// insert is a switch, and the positions that the edit computes fit.
    pub fn can_handle(&self, action: &ModelAction) -> (b: bool)
        ensures
            b == handle_event_allowed(*self, *action),
    {
        match action {
            ModelAction::Inf(InfrastructureEdit::InsertNode(t, p, ty, l)) => match ty {
                NodeType::Switch(Dir::Up, _) => self.inf.get_track(t).is_none() || p.checked_add(*l).is_some(),
                NodeType::Switch(Dir::Down, _) => self.inf.get_track(t).is_none() || p.checked_sub(*l).is_some(),
                _ => false,
            },
            ModelAction::Inf(InfrastructureEdit::ExtendTrack(id, len)) => match self.inf.get_node(id) {
                Some(n) => n.0.checked_add(*len).is_some(),
                None => true,
            },
            _ => true,
        }
    }

    /// Applies an edit, and reports what it changed.
    pub fn handle_event(&mut self, action: ModelAction) -> (r: Result<ModelUpdateResult, String>)
        requires
            handle_event_allowed(*old(self), action),
        ensures
            handle_event_post(*old(self), *final(self), action, r),
    {
        match action {
            ModelAction::Inf(ie) => self.handle_inf_edit(ie),
            ModelAction::Scenario(se) => self.handle_scenario_edit(se),
        }
    }

    /// Applies an edit and reports what it changed; an edit that fails
    /// reports no change.
    pub fn integrate(&mut self, action: ModelAction) -> (res: ModelUpdateResult)
        requires
            handle_event_allowed(*old(self), action),
        ensures
            exists|r: Result<ModelUpdateResult, String>|
                #[trigger] handle_event_post(*old(self), *final(self), action, r) && res == reported(r),
    {
        match self.handle_event(action) {
            Ok(r) => r,
            Err(_) => ModelUpdateResult::NoChange,
        }
    }

    /// Selects position `pos` on track `obj`.
    pub fn select_pos(&mut self, pos: Pos, obj: TrackId)
        ensures
            *final(self) == (Model {
                view: view::View { selection: Selection::Pos(pos, 0, obj), ..old(self).view },
                ..*old(self)
            }),
    {
        let y: Pos = 0;
        self.view.selection = Selection::Pos(pos, y, obj);
    }

    /// The issues found in the model; none are looked for yet.
    pub fn iter_issues(&self) -> (r: Vec<Issue>)
        ensures
            r@.len() == 0,
    {
        Vec::new()
    }

    /// Moves the view one step in the direction of an arrow key: the centre,
    /// kept in hundredths of the world unit, moves by 0.15 of the view's width.
    pub fn move_view(&mut self, inputdir: InputDir)
        requires
            i64::MIN <= moved_center(old(self).view.viewport.0, old(self).view.viewport.1, inputdir).0
                <= i64::MAX,
            i64::MIN <= moved_center(old(self).view.viewport.0, old(self).view.viewport.1, inputdir).1
                <= i64::MAX,
        ensures
            *final(self) == (Model {
                view: view::View {
                    viewport: (
                        (
                            moved_center(old(self).view.viewport.0, old(self).view.viewport.1, inputdir).0 as i64,
                            moved_center(old(self).view.viewport.0, old(self).view.viewport.1, inputdir).1 as i64,
                        ),
                        old(self).view.viewport.1,
                    ),
                    ..old(self).view
                },
                ..*old(self)
            }),
    {
        let zoom = self.view.viewport.1;
        let step: i128 = (zoom as i128) * 15;
        let (x, y) = self.view.viewport.0;
        let (nx, ny): (i128, i128) = match inputdir {
            InputDir::Left => (x as i128 - step, y as i128),
            InputDir::Right => (x as i128 + step, y as i128),
            InputDir::Up => (x as i128, y as i128 + step),
            InputDir::Down => (x as i128, y as i128 - step),
        };
        self.view.viewport = ((nx as i64, ny as i64), zoom);
    }

    /// Brings a world point into view; the view does not follow yet.
    pub fn include_in_view(&mut self, pt: (i64, i64))
        ensures
            *final(self) == *old(self),
    {
    }

    /// Where an entity is drawn; every entity is placed at the origin yet.
    pub fn entity_location(&self, obj: EntityId) -> (r: (i64, i64))
        ensures
            r == (0i64, 0i64),
    {
        (0, 0)
    }

    /// Moves the selection in the direction of an arrow key; the selection
    /// does not move yet.
    pub fn move_selection(&mut self, inputdir: InputDir)
        ensures
            *final(self) == *old(self),
    {
    }
}

} // verus!
