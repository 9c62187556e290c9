use glrail::infrastructure::{
    Dir, Entity, EntityId, Infrastructure, Node, NodeType, Object, ObjectType, Port, Side, Track,
};

#[test]
fn new_entities_take_fresh_ids_and_read_back() {
    let mut inf = Infrastructure::new_empty();
    let n = inf.new_node(Node(3, NodeType::BufferStop));
    let t = inf.new_track(Track {
        start_node: (n, Port { dir: Dir::Up, course: None }),
        end_node: (n, Port { dir: Dir::Down, course: None }),
    });
    let o = inf.new_object(Object(t, 1, ObjectType::Balise(true)));
    assert_eq!((n, t, o), (0, 1, 2));
    assert_eq!(inf.get(EntityId::Node(0)), Some(&Entity::Node(Node(3, NodeType::BufferStop))));
    assert_eq!(inf.get_track(&0), None);
    assert_eq!(inf.get_object(&2), Some(&Object(1, 1, ObjectType::Balise(true))));
}

#[test]
fn delete_empties_only_its_own_kind() {
    let mut inf = Infrastructure::new_empty();
    inf.new_node(Node(3, NodeType::Crossing));
    inf.new_node(Node(4, NodeType::BufferStop));
    inf.delete(EntityId::Track(0));
    assert_eq!(inf.get_node(&0), Some(&Node(3, NodeType::Crossing)));
    inf.delete(EntityId::Node(0));
    assert_eq!(inf.get(EntityId::Node(0)), None);
    assert_eq!(inf.entities.len(), 2);
    assert_eq!(inf.get_node(&1), Some(&Node(4, NodeType::BufferStop)));
    inf.delete(EntityId::Node(17));
    assert_eq!(inf.entities.len(), 2);
}

#[test]
fn setters_change_only_their_kind() {
    let mut inf = Infrastructure::new_empty();
    inf.new_node(Node(3, NodeType::Crossing));
    let t = Track {
        start_node: (0, Port { dir: Dir::Up, course: Some(Side::Left) }),
        end_node: (0, Port { dir: Dir::Down, course: None }),
    };
    inf.new_track(t);
    inf.set_node_pos(0, 9);
    inf.set_node_type(0, NodeType::BufferStop);
    assert_eq!(inf.get_node(&0), Some(&Node(9, NodeType::BufferStop)));
    inf.set_node_pos(1, 100);
    inf.set_track(0, t);
    assert_eq!(inf.get_track(&1), Some(&t));
    assert_eq!(inf.get_node(&0), Some(&Node(9, NodeType::BufferStop)));
    assert_eq!(inf.iter_tracks(), vec![(1, t)]);
}

#[test]
fn node_ports_and_sides() {
    assert_eq!(NodeType::Switch(Dir::Up, Side::Left).num_ports(), 3);
    assert_eq!(NodeType::Crossing.num_ports(), 4);
    assert_eq!(NodeType::BufferStop.num_ports(), 1);
    assert_eq!(NodeType::Macro(None).num_ports(), 1);
    assert_eq!(Side::Left.other(), Side::Right);
    assert_eq!(Side::Right.other(), Side::Left);
}
