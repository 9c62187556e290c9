use vstd::prelude::*;

verus! {

/// A position along a track, in the model's integer length unit.
pub type Pos = i64;

/// Index of an entity slot in an [`Infrastructure`].
pub type NodeId = usize;

pub type TrackId = usize;

pub type ObjectId = usize;

#[derive(Clone, Copy, Debug, PartialEq, Eq, Structural)]
pub enum Dir {
    Up,
    Down,
}

#[derive(Clone, Copy, Debug, PartialEq, Eq, Structural)]
pub enum Side {
    Left,
    Right,
}

pub open spec fn spec_other(s: Side) -> Side {
    match s {
        Side::Left => Side::Right,
        Side::Right => Side::Left,
    }
}

impl Side {
    /// The opposite side.
    pub fn other(&self) -> (r: Side)
        ensures
            r == spec_other(*self),
    {
        match self {
            Side::Left => Side::Right,
            Side::Right => Side::Left,
        }
    }
}

/// One end of a track: the direction it faces and, at a switch, which course it is.
#[derive(Clone, Copy, Debug, PartialEq, Eq, Structural)]
pub struct Port {
    pub dir: Dir,
    pub course: Option<Side>,
}

/// A track runs from one node port to another.
#[derive(Clone, Copy, Debug, PartialEq, Eq)]
pub struct Track {
    pub start_node: (NodeId, Port),
    pub end_node: (NodeId, Port),
}

#[derive(Clone, Debug, PartialEq, Eq)]
pub enum NodeType {
    Switch(Dir, Side),
    Crossing,
    BufferStop,
    Macro(Option<String>),
}

pub open spec fn spec_num_ports(t: NodeType) -> usize {
    match t {
        NodeType::Switch(_, _) => 3,
        NodeType::Crossing => 4,
        NodeType::BufferStop => 1,
        NodeType::Macro(_) => 1,
    }
}

impl NodeType {
    /// The number of track ends that meet at a node of this type.
    pub fn num_ports(&self) -> (r: usize)
        ensures
            r == spec_num_ports(*self),
    {
        match self {
            NodeType::Switch(_, _) => 3,
            NodeType::Crossing => 4,
            NodeType::BufferStop => 1,
            NodeType::Macro(_) => 1,
        }
    }
}

/// A node at a position.
#[derive(Clone, Debug, PartialEq, Eq)]
pub struct Node(pub Pos, pub NodeType);

#[derive(Clone, Copy, Debug, PartialEq, Eq, Structural)]
pub enum ObjectType {
    Signal(Dir),
    Balise(bool),
    Detector,
}

/// A trackside object on a track at a position.
#[derive(Clone, Copy, Debug, PartialEq, Eq, Structural)]
pub struct Object(pub TrackId, pub Pos, pub ObjectType);

#[derive(Clone, Copy, Debug, PartialEq, Eq, Structural)]
pub enum EntityId {
    Track(TrackId),
    Node(NodeId),
    Object(ObjectId),
}

#[derive(Clone, Debug, PartialEq, Eq)]
pub enum Entity {
    Track(Track),
    Node(Node),
    Object(Object),
}

/// The editing operations on the infrastructure.
#[derive(Clone, Debug, PartialEq)]
pub enum InfrastructureEdit {
    Invalidate,
    NewTrack(Pos, Pos),
    InsertObject(TrackId, Pos, ObjectType),
    ToggleBufferMacro(NodeId),
    InsertNode(TrackId, Pos, NodeType, Pos),
    JoinNodes(NodeId, NodeId),
    ExtendTrack(NodeId, Pos),
}

/// All entities, each in a slot of its own; a deleted entity leaves its
/// slot empty, so that ids stay stable.
#[derive(Clone, Debug)]
pub struct Infrastructure {
    pub entities: Vec<Option<Entity>>,
}

impl View for Infrastructure {
    type V = Seq<Option<Entity>>;

    open spec fn view(&self) -> Seq<Option<Entity>> {
        self.entities@
    }
}

pub open spec fn spec_get(s: Seq<Option<Entity>>, id: EntityId) -> Option<Entity> {
    match id {
        EntityId::Track(i) => match spec_track(s, i as int) {
            Some(t) => Some(Entity::Track(t)),
            None => None,
        },
        EntityId::Node(i) => match spec_node(s, i as int) {
            Some(n) => Some(Entity::Node(n)),
            None => None,
        },
        EntityId::Object(i) => match spec_object(s, i as int) {
            Some(o) => Some(Entity::Object(o)),
            None => None,
        },
    }
}

pub open spec fn spec_node(s: Seq<Option<Entity>>, id: int) -> Option<Node> {
    if 0 <= id < s.len() {
        match s[id] {
            Some(Entity::Node(n)) => Some(n),
            _ => None,
        }
    } else {
        None
    }
}

pub open spec fn spec_track(s: Seq<Option<Entity>>, id: int) -> Option<Track> {
    if 0 <= id < s.len() {
        match s[id] {
            Some(Entity::Track(t)) => Some(t),
            _ => None,
        }
    } else {
        None
    }
}

pub open spec fn spec_object(s: Seq<Option<Entity>>, id: int) -> Option<Object> {
    if 0 <= id < s.len() {
        match s[id] {
            Some(Entity::Object(o)) => Some(o),
            _ => None,
        }
    } else {
        None
    }
}

/// The slot index that an id names.
pub open spec fn spec_index(id: EntityId) -> int {
    match id {
        EntityId::Track(i) => i as int,
        EntityId::Node(i) => i as int,
        EntityId::Object(i) => i as int,
    }
}

/// The entities after deleting `id`: its slot is emptied where it holds an
/// entity of the kind that the id names, and nothing changes otherwise.
pub open spec fn spec_delete(s: Seq<Option<Entity>>, id: EntityId) -> Seq<Option<Entity>> {
    if spec_get(s, id) is Some {
        s.update(spec_index(id), None)
    } else {
        s
    }
}

/// The entities after moving node `id` to `pos`, where it is a node.
pub open spec fn spec_set_node_pos(s: Seq<Option<Entity>>, id: int, pos: Pos) -> Seq<Option<Entity>> {
    match spec_node(s, id) {
        Some(n) => s.update(id, Some(Entity::Node(Node(pos, n.1)))),
        None => s,
    }
}

/// The entities after giving node `id` the type `t`, where it is a node.
pub open spec fn spec_set_node_type(s: Seq<Option<Entity>>, id: int, t: NodeType) -> Seq<Option<Entity>> {
    match spec_node(s, id) {
        Some(n) => s.update(id, Some(Entity::Node(Node(n.0, t)))),
        None => s,
    }
}

/// The entities after replacing track `id` by `t`, where it is a track.
pub open spec fn spec_set_track(s: Seq<Option<Entity>>, id: int, t: Track) -> Seq<Option<Entity>> {
    match spec_track(s, id) {
        Some(_) => s.update(id, Some(Entity::Track(t))),
        None => s,
    }
}

/// The tracks among the first `k` slots, in slot order, each with its id.
pub open spec fn tracks_of(s: Seq<Option<Entity>>, k: int) -> Seq<(TrackId, Track)>
    decreases k,
{
    if k <= 0 {
        Seq::empty()
    } else {
        match spec_track(s, k - 1) {
            Some(t) => tracks_of(s, k - 1).push(((k - 1) as usize, t)),
            None => tracks_of(s, k - 1),
        }
    }
}

/// Each listed track is the track in the slot that its id names, and the
/// ids increase.
pub proof fn lemma_tracks_of_valid(s: Seq<Option<Entity>>, k: int)
    requires
        0 <= k <= s.len(),
        s.len() <= usize::MAX,
    ensures
        forall|j: int|
            0 <= j < tracks_of(s, k).len() ==> {
                &&& spec_track(s, #[trigger] tracks_of(s, k)[j].0 as int) == Some(tracks_of(s, k)[j].1)
                &&& tracks_of(s, k)[j].0 < k
            },
    decreases k,
{
    if k > 0 {
        lemma_tracks_of_valid(s, k - 1);
        let prev = tracks_of(s, k - 1);
        let cur = tracks_of(s, k);
        assert forall|j: int| 0 <= j < cur.len() implies {
            &&& spec_track(s, #[trigger] cur[j].0 as int) == Some(cur[j].1)
            &&& cur[j].0 < k
        } by {
            if j < prev.len() {
                assert(cur[j] == prev[j]);
                assert(spec_track(s, prev[j].0 as int) == Some(prev[j].1));
            }
        }
    }
}

impl Infrastructure {
    pub fn new_empty() -> (r: Infrastructure)
        ensures
            r@ == Seq::<Option<Entity>>::empty(),
    {
        Infrastructure { entities: Vec::new() }
    }

    fn push_entity(&mut self, e: Entity) -> (id: usize)
        ensures
            id == old(self)@.len(),
            final(self)@ == old(self)@.push(Some(e)),
    {
        let id = self.entities.len();
        self.entities.push(Some(e));
        id
    }

    /// Adds a node in a fresh slot and returns its id.
    pub fn new_node(&mut self, n: Node) -> (id: NodeId)
        ensures
            id == old(self)@.len(),
            final(self)@ == old(self)@.push(Some(Entity::Node(n))),
    {
        self.push_entity(Entity::Node(n))
    }

    /// Adds a track in a fresh slot and returns its id.
    pub fn new_track(&mut self, t: Track) -> (id: TrackId)
        ensures
            id == old(self)@.len(),
            final(self)@ == old(self)@.push(Some(Entity::Track(t))),
    {
        self.push_entity(Entity::Track(t))
    }

    /// Adds an object in a fresh slot and returns its id.
    pub fn new_object(&mut self, o: Object) -> (id: ObjectId)
        ensures
            id == old(self)@.len(),
            final(self)@ == old(self)@.push(Some(Entity::Object(o))),
    {
        self.push_entity(Entity::Object(o))
    }

    /// The entity that `id` names, where there is one of that kind.
    pub fn get(&self, id: EntityId) -> (r: Option<&Entity>)
        ensures
            match r {
                Some(e) => spec_get(self@, id) == Some(*e),
                None => spec_get(self@, id) is None,
            },
    {
        let i = match id {
            EntityId::Track(i) => i,
            EntityId::Node(i) => i,
            EntityId::Object(i) => i,
        };
        if i < self.entities.len() {
            match &self.entities[i] {
                Some(e) => {
                    let kind_ok = match (id, e) {
                        (EntityId::Track(_), Entity::Track(_)) => true,
                        (EntityId::Node(_), Entity::Node(_)) => true,
                        (EntityId::Object(_), Entity::Object(_)) => true,
                        _ => false,
                    };
                    if kind_ok {
                        Some(e)
                    } else {
                        None
                    }
                },
                None => None,
            }
        } else {
            None
        }
    }

    pub fn get_node(&self, id: &NodeId) -> (r: Option<&Node>)
        ensures
            match r {
                Some(n) => spec_node(self@, *id as int) == Some(*n),
                None => spec_node(self@, *id as int) is None,
            },
    {
        if *id < self.entities.len() {
            match &self.entities[*id] {
                Some(Entity::Node(n)) => Some(n),
                _ => None,
            }
        } else {
            None
        }
    }

    pub fn get_track(&self, id: &TrackId) -> (r: Option<&Track>)
        ensures
            match r {
                Some(t) => spec_track(self@, *id as int) == Some(*t),
                None => spec_track(self@, *id as int) is None,
            },
    {
        if *id < self.entities.len() {
            match &self.entities[*id] {
                Some(Entity::Track(t)) => Some(t),
                _ => None,
            }
        } else {
            None
        }
    }

    pub fn get_object(&self, id: &ObjectId) -> (r: Option<&Object>)
        ensures
            match r {
                Some(o) => spec_object(self@, *id as int) == Some(*o),
                None => spec_object(self@, *id as int) is None,
            },
    {
        if *id < self.entities.len() {
            match &self.entities[*id] {
                Some(Entity::Object(o)) => Some(o),
                _ => None,
            }
        } else {
            None
        }
    }

    /// All tracks, in slot order, each with its id.
    pub fn iter_tracks(&self) -> (r: Vec<(TrackId, Track)>)
        ensures
            r@ == tracks_of(self@, self@.len() as int),
    {
        let mut r: Vec<(TrackId, Track)> = Vec::new();
        let mut i: usize = 0;
        while i < self.entities.len()
            invariant
                i <= self@.len(),
                r@ == tracks_of(self@, i as int),
            decreases self@.len() - i,
        {
            if let Some(t) = self.get_track(&i) {
                r.push((i, *t));
            }
            i += 1;
        }
        r
    }

    /// Deletes the entity that `id` names, where there is one of that kind.
    pub fn delete(&mut self, id: EntityId)
        ensures
            final(self)@ == spec_delete(old(self)@, id),
    {
        let found = self.get(id).is_some();
        if found {
            let i = match id {
                EntityId::Track(i) => i,
                EntityId::Node(i) => i,
                EntityId::Object(i) => i,
            };
            self.entities.set(i, None);
        }
    }

    /// Moves node `id` to `pos`, where `id` names a node.
    pub fn set_node_pos(&mut self, id: NodeId, pos: Pos)
        ensures
            final(self)@ == spec_set_node_pos(old(self)@, id as int, pos),
    {
        if id < self.entities.len() {
            let mut slot: Option<Entity> = None;
            self.entities.set_and_swap(id, &mut slot);
            match slot {
                Some(Entity::Node(Node(_, t))) => {
                    self.entities.set(id, Some(Entity::Node(Node(pos, t))));
                },
                other => {
                    self.entities.set(id, other);
                    assert(self@ =~= old(self)@);
                },
            }
        }
    }

    /// Gives node `id` the type `t`, where `id` names a node.
    pub fn set_node_type(&mut self, id: NodeId, t: NodeType)
        ensures
            final(self)@ == spec_set_node_type(old(self)@, id as int, t),
    {
        if id < self.entities.len() {
            let mut slot: Option<Entity> = None;
            self.entities.set_and_swap(id, &mut slot);
            match slot {
                Some(Entity::Node(Node(p, _))) => {
                    self.entities.set(id, Some(Entity::Node(Node(p, t))));
                },
                other => {
                    self.entities.set(id, other);
                    assert(self@ =~= old(self)@);
                },
            }
        }
    }

    /// Replaces track `id` by `t`, where `id` names a track.
    pub fn set_track(&mut self, id: TrackId, t: Track)
        ensures
            final(self)@ == spec_set_track(old(self)@, id as int, t),
    {
        if self.get_track(&id).is_some() {
            self.entities.set(id, Some(Entity::Track(t)));
        }
    }
}

} // verus!
