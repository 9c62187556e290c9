use glrail::infrastructure::{
    Dir, Entity, EntityId, InfrastructureEdit, Node, NodeType, Object, ObjectType, Port, Side, Track,
};
use glrail::model::{moved_center_fits, Derive, Model, ModelAction, ModelUpdateResult};
use glrail::scenario::{Command, Scenario, ScenarioEdit, TimingSpec};
use glrail::view::{InputDir, Selection};

fn inf(m: &mut Model, e: InfrastructureEdit) -> Result<ModelUpdateResult, String> {
    m.handle_event(ModelAction::Inf(e))
}

fn scen(m: &mut Model, e: ScenarioEdit) -> Result<ModelUpdateResult, String> {
    m.handle_event(ModelAction::Scenario(e))
}

fn up() -> Port {
    Port { dir: Dir::Up, course: None }
}

fn down() -> Port {
    Port { dir: Dir::Down, course: None }
}

#[test]
fn new_empty_model() {
    let m = Model::new_empty();
    assert!(m.inf.entities.is_empty());
    assert!(m.scenarios.is_empty());
    assert_eq!(m.vehicles.len(), 1);
    assert_eq!(m.vehicles[0].name, "Default train");
    assert_eq!(m.vehicles[0].length, 100);
    assert_eq!(m.view.selection, Selection::Empty);
    assert_eq!(m.view.viewport, ((0, 0), 10));
    assert!(m.iter_issues().is_empty());
    match &m.schematic {
        Derive::Done(s) => assert!(s.lines.is_empty() && s.points.is_empty() && s.pos_map.is_empty()),
        _ => panic!("schematic not ready"),
    }
    match &m.dgraph {
        Derive::Done(g) => assert!(g.tvd_sections.is_empty() && g.edge_intervals.is_empty()),
        _ => panic!("dgraph not ready"),
    }
}

#[test]
fn derive_get() {
    let d: Derive<u32> = Derive::Done(5);
    assert_eq!(d.get(), Some(&5));
    let w: Derive<u32> = Derive::Wait;
    assert_eq!(w.get(), None);
    let e: Derive<u32> = Derive::Failed("no".to_string());
    assert_eq!(e.get(), None);
    let def: Derive<Vec<u32>> = Default::default();
    assert_eq!(def.get(), Some(&Vec::new()));
}

#[test]
fn new_track_creates_two_boundaries_and_a_track() {
    let mut m = Model::new_empty();
    let r = inf(&mut m, InfrastructureEdit::NewTrack(10, 250));
    assert_eq!(r, Ok(ModelUpdateResult::InfrastructureChanged));
    assert_eq!(m.inf.entities.len(), 3);
    assert_eq!(m.inf.get_node(&0), Some(&Node(10, NodeType::Macro(None))));
    assert_eq!(m.inf.get_node(&1), Some(&Node(250, NodeType::Macro(None))));
    assert_eq!(m.inf.get_track(&2), Some(&Track { start_node: (0, up()), end_node: (1, down()) }));
    assert_eq!(m.view.selection, Selection::Empty);
}

#[test]
fn insert_object_on_track() {
    let mut m = Model::new_empty();
    inf(&mut m, InfrastructureEdit::NewTrack(0, 100)).unwrap();
    let r = inf(&mut m, InfrastructureEdit::InsertObject(2, 40, ObjectType::Signal(Dir::Up)));
    assert_eq!(r, Ok(ModelUpdateResult::InfrastructureChanged));
    assert_eq!(m.inf.get_object(&3), Some(&Object(2, 40, ObjectType::Signal(Dir::Up))));
    assert_eq!(m.inf.get(EntityId::Object(3)), Some(&Entity::Object(Object(2, 40, ObjectType::Signal(Dir::Up)))));
    assert_eq!(m.inf.get(EntityId::Node(3)), None);
}

#[test]
fn toggle_buffer_macro() {
    let mut m = Model::new_empty();
    inf(&mut m, InfrastructureEdit::NewTrack(0, 100)).unwrap();
    inf(&mut m, InfrastructureEdit::ToggleBufferMacro(0)).unwrap();
    assert_eq!(m.inf.get_node(&0), Some(&Node(0, NodeType::BufferStop)));
    inf(&mut m, InfrastructureEdit::ToggleBufferMacro(0)).unwrap();
    assert_eq!(m.inf.get_node(&0), Some(&Node(0, NodeType::Macro(None))));
    // a track or a missing id is left alone
    let before = m.inf.entities.clone();
    assert_eq!(inf(&mut m, InfrastructureEdit::ToggleBufferMacro(2)), Ok(ModelUpdateResult::InfrastructureChanged));
    assert_eq!(inf(&mut m, InfrastructureEdit::ToggleBufferMacro(99)), Ok(ModelUpdateResult::InfrastructureChanged));
    assert_eq!(m.inf.entities, before);
}

#[test]
fn toggle_named_boundary_becomes_buffer_then_unnamed_boundary() {
    let mut m = Model::new_empty();
    m.inf.new_node(Node(5, NodeType::Macro(Some("west".to_string()))));
    inf(&mut m, InfrastructureEdit::ToggleBufferMacro(0)).unwrap();
    assert_eq!(m.inf.get_node(&0), Some(&Node(5, NodeType::BufferStop)));
    inf(&mut m, InfrastructureEdit::ToggleBufferMacro(0)).unwrap();
    assert_eq!(m.inf.get_node(&0), Some(&Node(5, NodeType::Macro(None))));
}

#[test]
fn insert_switch_facing_up() {
    let mut m = Model::new_empty();
    inf(&mut m, InfrastructureEdit::NewTrack(0, 100)).unwrap();
    let r = inf(&mut m, InfrastructureEdit::InsertNode(2, 50, NodeType::Switch(Dir::Up, Side::Left), 20));
    assert_eq!(r, Ok(ModelUpdateResult::InfrastructureChanged));
    assert_eq!(m.inf.entities.len(), 7);
    assert_eq!(m.inf.get_node(&3), Some(&Node(50, NodeType::Switch(Dir::Up, Side::Left))));
    assert_eq!(m.inf.get_track(&2), Some(&Track { start_node: (0, up()), end_node: (3, down()) }));
    assert_eq!(
        m.inf.get_track(&4),
        Some(&Track { start_node: (3, Port { dir: Dir::Up, course: Some(Side::Right) }), end_node: (1, down()) })
    );
    assert_eq!(m.inf.get_node(&5), Some(&Node(70, NodeType::BufferStop)));
    assert_eq!(
        m.inf.get_track(&6),
        Some(&Track { start_node: (3, Port { dir: Dir::Up, course: Some(Side::Left) }), end_node: (5, down()) })
    );
    assert_eq!(m.view.selection, Selection::Entity(EntityId::Node(3)));
}

#[test]
fn insert_switch_facing_down() {
    let mut m = Model::new_empty();
    inf(&mut m, InfrastructureEdit::NewTrack(0, 100)).unwrap();
    let r = inf(&mut m, InfrastructureEdit::InsertNode(2, 50, NodeType::Switch(Dir::Down, Side::Right), 20));
    assert_eq!(r, Ok(ModelUpdateResult::InfrastructureChanged));
    assert_eq!(m.inf.get_track(&2), Some(&Track { start_node: (3, up()), end_node: (1, down()) }));
    assert_eq!(
        m.inf.get_track(&4),
        Some(&Track { start_node: (0, up()), end_node: (3, Port { dir: Dir::Down, course: Some(Side::Left) }) })
    );
    assert_eq!(m.inf.get_node(&5), Some(&Node(30, NodeType::BufferStop)));
    assert_eq!(
        m.inf.get_track(&6),
        Some(&Track { start_node: (5, up()), end_node: (3, Port { dir: Dir::Down, course: Some(Side::Right) }) })
    );
    assert_eq!(m.view.selection, Selection::Entity(EntityId::Node(3)));
}

#[test]
fn insert_switch_on_missing_track_fails_but_keeps_the_switch() {
    let mut m = Model::new_empty();
    inf(&mut m, InfrastructureEdit::NewTrack(0, 100)).unwrap();
    let r = inf(&mut m, InfrastructureEdit::InsertNode(0, 50, NodeType::Switch(Dir::Up, Side::Left), 20));
    assert_eq!(r, Err("Track ref err".to_string()));
    assert_eq!(m.inf.entities.len(), 4);
    assert_eq!(m.inf.get_node(&3), Some(&Node(50, NodeType::Switch(Dir::Up, Side::Left))));
    assert_eq!(m.view.selection, Selection::Empty);
}

#[test]
fn join_nodes_merges_two_tracks() {
    let mut m = Model::new_empty();
    inf(&mut m, InfrastructureEdit::NewTrack(0, 100)).unwrap();
    inf(&mut m, InfrastructureEdit::NewTrack(100, 200)).unwrap();
    let r = inf(&mut m, InfrastructureEdit::JoinNodes(1, 3));
    assert_eq!(r, Ok(ModelUpdateResult::InfrastructureChanged));
    assert_eq!(m.inf.get_track(&2), Some(&Track { start_node: (0, up()), end_node: (4, down()) }));
    assert_eq!(m.inf.entities[1], None);
    assert_eq!(m.inf.entities[3], None);
    assert_eq!(m.inf.entities[5], None);
    assert_eq!(m.inf.get_node(&0), Some(&Node(0, NodeType::Macro(None))));
    assert_eq!(m.inf.get_node(&4), Some(&Node(200, NodeType::Macro(None))));
    assert_eq!(m.inf.iter_tracks(), vec![(2, Track { start_node: (0, up()), end_node: (4, down()) })]);
    // slots are emptied, never removed
    assert_eq!(m.inf.entities.len(), 6);
}

#[test]
fn join_nodes_errors() {
    let mut m = Model::new_empty();
    inf(&mut m, InfrastructureEdit::NewTrack(0, 100)).unwrap();
    inf(&mut m, InfrastructureEdit::NewTrack(100, 200)).unwrap();
    let before = m.inf.entities.clone();
    assert_eq!(inf(&mut m, InfrastructureEdit::JoinNodes(1, 9)), Err("Node ref err".to_string()));
    assert_eq!(inf(&mut m, InfrastructureEdit::JoinNodes(2, 3)), Err("Node ref err".to_string()));
    // both nodes are where tracks end: no track starts at either
    assert_eq!(inf(&mut m, InfrastructureEdit::JoinNodes(1, 4)), Err("Mismatching nodes for joining".to_string()));
    assert_eq!(m.inf.entities, before);
    inf(&mut m, InfrastructureEdit::InsertNode(2, 50, NodeType::Switch(Dir::Up, Side::Left), 20)).unwrap();
    let before = m.inf.entities.clone();
    assert_eq!(inf(&mut m, InfrastructureEdit::JoinNodes(6, 3)), Err("Nodes must have 1 port.".to_string()));
    assert_eq!(m.inf.entities, before);
}

#[test]
fn extend_track_moves_the_node() {
    let mut m = Model::new_empty();
    inf(&mut m, InfrastructureEdit::NewTrack(0, 100)).unwrap();
    assert_eq!(inf(&mut m, InfrastructureEdit::ExtendTrack(1, 25)), Ok(ModelUpdateResult::InfrastructureChanged));
    assert_eq!(m.inf.get_node(&1), Some(&Node(125, NodeType::Macro(None))));
    assert_eq!(inf(&mut m, InfrastructureEdit::ExtendTrack(0, -30)), Ok(ModelUpdateResult::InfrastructureChanged));
    assert_eq!(m.inf.get_node(&0), Some(&Node(-30, NodeType::Macro(None))));
    let before = m.inf.entities.clone();
    assert_eq!(inf(&mut m, InfrastructureEdit::ExtendTrack(2, 5)), Ok(ModelUpdateResult::InfrastructureChanged));
    assert_eq!(m.inf.entities, before);
}

#[test]
fn invalidate_changes_nothing() {
    let mut m = Model::new_empty();
    inf(&mut m, InfrastructureEdit::NewTrack(0, 100)).unwrap();
    let before = m.inf.entities.clone();
    assert_eq!(inf(&mut m, InfrastructureEdit::Invalidate), Ok(ModelUpdateResult::InfrastructureChanged));
    assert_eq!(m.inf.entities, before);
}

#[test]
fn dispatch_scenarios() {
    let mut m = Model::new_empty();
    assert_eq!(scen(&mut m, ScenarioEdit::NewDispatch), Ok(ModelUpdateResult::ScenarioChanged(0)));
    assert_eq!(
        scen(&mut m, ScenarioEdit::AddDispatchCommand(0, 30, Command::Route(2))),
        Ok(ModelUpdateResult::ScenarioChanged(0))
    );
    assert_eq!(
        scen(&mut m, ScenarioEdit::ModifyDispatchCommand(0, 0, None)),
        Ok(ModelUpdateResult::ScenarioChanged(0))
    );
    match &m.scenarios[0] {
        Scenario::Dispatch(d) => assert_eq!(d.commands, vec![(30, Command::Route(2))]),
        _ => panic!("expected a dispatch"),
    }
    // a command for a scenario that is not there changes nothing
    assert_eq!(
        scen(&mut m, ScenarioEdit::AddDispatchCommand(5, 1, Command::Train(0, 1))),
        Ok(ModelUpdateResult::ScenarioChanged(5))
    );
    assert_eq!(m.scenarios.len(), 1);
}

#[test]
fn usage_scenarios() {
    let mut m = Model::new_empty();
    scen(&mut m, ScenarioEdit::NewDispatch).unwrap();
    assert_eq!(scen(&mut m, ScenarioEdit::NewUsage), Ok(ModelUpdateResult::ScenarioChanged(1)));
    assert_eq!(scen(&mut m, ScenarioEdit::AddUsageMovement(1)), Ok(ModelUpdateResult::ScenarioChanged(1)));
    scen(&mut m, ScenarioEdit::SetUsageMovementVehicle(1, 0, 3)).unwrap();
    scen(&mut m, ScenarioEdit::AddUsageMovementVisit(1, 0)).unwrap();
    scen(&mut m, ScenarioEdit::SetUsageMovementVisitNodes(1, 0, 0, vec![4, 7])).unwrap();
    scen(&mut m, ScenarioEdit::AddUsageTimingSpec(1)).unwrap();
    scen(&mut m, ScenarioEdit::SetUsageTimingSpec(1, 0, 0, 0, 0, 1, Some(60))).unwrap();
    // edits of usages aimed at the dispatch, or out of range, change nothing
    scen(&mut m, ScenarioEdit::AddUsageMovement(0)).unwrap();
    scen(&mut m, ScenarioEdit::SetUsageMovementVehicle(1, 5, 1)).unwrap();
    scen(&mut m, ScenarioEdit::SetUsageMovementVisitNodes(1, 0, 9, vec![1])).unwrap();
    scen(&mut m, ScenarioEdit::SetUsageTimingSpec(1, 3, 1, 1, 1, 1, None)).unwrap();
    match &m.scenarios[1] {
        Scenario::Usage(u, d) => {
            assert_eq!(u.movements.len(), 1);
            assert_eq!(u.movements[0].vehicle_ref, 3);
            assert_eq!(u.movements[0].visits.len(), 1);
            assert_eq!(u.movements[0].visits[0].nodes, vec![4, 7]);
            assert_eq!(u.timings, vec![TimingSpec { visit_a: (0, 0), visit_b: (0, 1), time: Some(60) }]);
            assert_eq!(d, &Derive::Done(Vec::new()));
        },
        _ => panic!("expected a usage"),
    }
    match &m.scenarios[0] {
        Scenario::Dispatch(d) => assert!(d.commands.is_empty()),
        _ => panic!("expected a dispatch"),
    }
}

#[test]
fn integrate_reports_no_change_on_failure() {
    let mut m = Model::new_empty();
    assert_eq!(
        m.integrate(ModelAction::Inf(InfrastructureEdit::JoinNodes(0, 1))),
        ModelUpdateResult::NoChange
    );
    assert_eq!(
        m.integrate(ModelAction::Inf(InfrastructureEdit::NewTrack(0, 1))),
        ModelUpdateResult::InfrastructureChanged
    );
    assert_eq!(m.integrate(ModelAction::Scenario(ScenarioEdit::NewUsage)), ModelUpdateResult::ScenarioChanged(0));
}

#[test]
fn move_view_steps_fifteen_percent() {
    let mut m = Model::new_empty();
    m.view.viewport = ((0, 0), 1000);
    m.move_view(InputDir::Left);
    assert_eq!(m.view.viewport, ((-15000, 0), 1000));
    m.move_view(InputDir::Up);
    assert_eq!(m.view.viewport, ((-15000, 15000), 1000));
    m.move_view(InputDir::Right);
    m.move_view(InputDir::Down);
    assert_eq!(m.view.viewport, ((0, 0), 1000));
    // the default width of 10 moves the centre by 1.5 world units
    let mut d = Model::new_empty();
    d.move_view(InputDir::Up);
    assert_eq!(d.view.viewport, ((0, 150), 10));
}

#[test]
fn selection_and_view_helpers() {
    let mut m = Model::new_empty();
    m.select_pos(42, 7);
    assert_eq!(m.view.selection, Selection::Pos(42, 0, 7));
    m.move_selection(InputDir::Left);
    assert_eq!(m.view.selection, Selection::Pos(42, 0, 7));
    m.include_in_view((5, 5));
    assert_eq!(m.view.viewport, ((0, 0), 10));
    assert_eq!(m.entity_location(EntityId::Node(0)), (0, 0));
}

#[test]
fn scenario_edits_leave_infrastructure_alone() {
    let mut m = Model::new_empty();
    inf(&mut m, InfrastructureEdit::NewTrack(0, 100)).unwrap();
    let before = m.inf.entities.clone();
    scen(&mut m, ScenarioEdit::NewDispatch).unwrap();
    scen(&mut m, ScenarioEdit::NewUsage).unwrap();
    assert_eq!(m.inf.entities, before);
    assert_eq!(m.scenarios.len(), 2);
    inf(&mut m, InfrastructureEdit::NewTrack(5, 6)).unwrap();
    assert_eq!(m.scenarios.len(), 2);
}

#[test]
fn moved_center_fits_at_the_edges() {
    assert!(moved_center_fits((0, 0), 1000, InputDir::Left));
    assert!(!moved_center_fits((i64::MIN, 0), 1000, InputDir::Left));
    assert!(moved_center_fits((i64::MIN, 0), 1000, InputDir::Right));
    assert!(!moved_center_fits((0, i64::MAX - 14999), 1000, InputDir::Up));
    assert!(moved_center_fits((0, i64::MAX - 15000), 1000, InputDir::Up));
    assert!(moved_center_fits((i64::MAX, i64::MAX), 0, InputDir::Up));
    assert!(!moved_center_fits((0, 0), u64::MAX, InputDir::Down));
}

#[test]
fn can_handle_checks_switches_and_ranges() {
    let mut m = Model::new_empty();
    inf(&mut m, InfrastructureEdit::NewTrack(0, 100)).unwrap();
    let up = NodeType::Switch(Dir::Up, Side::Left);
    let down = NodeType::Switch(Dir::Down, Side::Left);
    assert!(m.can_handle(&ModelAction::Inf(InfrastructureEdit::InsertNode(2, 50, up.clone(), 20))));
    assert!(!m.can_handle(&ModelAction::Inf(InfrastructureEdit::InsertNode(2, 50, NodeType::Crossing, 20))));
    assert!(!m.can_handle(&ModelAction::Inf(InfrastructureEdit::InsertNode(2, i64::MAX, up.clone(), 1))));
    assert!(m.can_handle(&ModelAction::Inf(InfrastructureEdit::InsertNode(0, i64::MAX, up, 1))));
    assert!(!m.can_handle(&ModelAction::Inf(InfrastructureEdit::InsertNode(2, i64::MIN, down, 1))));
    assert!(!m.can_handle(&ModelAction::Inf(InfrastructureEdit::ExtendTrack(1, i64::MAX))));
    assert!(m.can_handle(&ModelAction::Inf(InfrastructureEdit::ExtendTrack(2, i64::MAX))));
    assert!(m.can_handle(&ModelAction::Scenario(ScenarioEdit::NewUsage)));
}
