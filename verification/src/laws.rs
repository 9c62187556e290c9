//! Properties that relate several operations of the model.

use vstd::prelude::*;
use crate::canvas::{
    Action, LineInput, NormalState, PointerInput, Pt, Ref, line_step, normal_next_action, normal_next_selection,
};
use crate::infrastructure::{
    Dir, Entity, EntityId, InfrastructureEdit, Node, NodeId, NodeType, Port, Side, Track, TrackId, spec_delete,
    spec_get, spec_index, spec_node, spec_num_ports, spec_track, tracks_of,
};
use crate::model::{
    Model, ModelAction, ModelUpdateResult, handle_event_post, inf_edit_post, join_post, last_ending_at,
    last_starting_at, moved_center, reported,
};
use crate::view::InputDir;

verus! {

/// A node added in a fresh slot reads back as that node, and every id that
/// named an entity before still names the same one.
pub proof fn law_new_node_reads_back(s: Seq<Option<Entity>>, n: Node)
    requires
        s.len() <= usize::MAX,
    ensures
        spec_get(s.push(Some(Entity::Node(n))), EntityId::Node(s.len() as usize)) == Some(Entity::Node(n)),
        forall|id: EntityId|
            spec_index(id) < s.len() ==> #[trigger] spec_get(s.push(Some(Entity::Node(n))), id) == spec_get(s, id),
{
}

/// A deleted entity reads back as nothing, and every other slot is as it was.
pub proof fn law_delete_reads_back(s: Seq<Option<Entity>>, id: EntityId)
    ensures
        spec_get(spec_delete(s, id), id) is None,
        spec_delete(s, id).len() == s.len(),
        forall|j: int| 0 <= j < s.len() && j != spec_index(id) ==> #[trigger] spec_delete(s, id)[j] == s[j],
{
}

/// No edit shrinks the list of entity slots, so an id is never handed out
/// twice.
pub proof fn law_edit_keeps_slots(old: Model, new: Model, a: ModelAction, r: Result<ModelUpdateResult, String>)
    requires
        handle_event_post(old, new, a, r),
    ensures
        new.inf@.len() >= old.inf@.len(),
{
}

/// An edit that fails leaves the model as it was, except an inserted node
/// whose track does not exist: that node stays.
pub proof fn law_failed_edit_changes_nothing(
    old: Model,
    new: Model,
    a: ModelAction,
    r: Result<ModelUpdateResult, String>,
)
    requires
        handle_event_post(old, new, a, r),
        r is Err,
        !(a matches ModelAction::Inf(InfrastructureEdit::InsertNode(_, _, _, _))),
    ensures
        new.inf@ == old.inf@,
        new == (Model { inf: new.inf, ..old }),
{
}

/// `integrate` reports no change exactly when the edit failed.
pub proof fn law_integrate_reports_failure(
    old: Model,
    new: Model,
    a: ModelAction,
    r: Result<ModelUpdateResult, String>,
)
    requires
        handle_event_post(old, new, a, r),
    ensures
        (reported(r) == ModelUpdateResult::NoChange) == (r is Err),
{
}

/// A scenario edit leaves the infrastructure and the view as they were, and
/// an infrastructure edit leaves the scenarios and vehicles as they were.
pub proof fn law_edits_keep_apart(old: Model, new: Model, a: ModelAction, r: Result<ModelUpdateResult, String>)
    requires
        handle_event_post(old, new, a, r),
    ensures
        a is Scenario ==> new.inf == old.inf && new.view == old.view,
        a is Inf ==> new.scenarios == old.scenarios && new.vehicles == old.vehicles,
{
}

/// Toggling a buffer stop twice gives back the buffer stop.
pub proof fn law_toggle_buffer_stop_twice(
    m0: Model,
    m1: Model,
    m2: Model,
    id: NodeId,
    r1: Result<ModelUpdateResult, String>,
    r2: Result<ModelUpdateResult, String>,
)
    requires
        spec_node(m0.inf@, id as int) matches Some(n) && n.1 == NodeType::BufferStop,
        inf_edit_post(m0, m1, InfrastructureEdit::ToggleBufferMacro(id), r1),
        inf_edit_post(m1, m2, InfrastructureEdit::ToggleBufferMacro(id), r2),
    ensures
        m2.inf@ == m0.inf@,
{
    assert(m2.inf@ =~= m0.inf@);
}

/// Moving the view left and then right, or up and then down, brings it
/// back to where it was.
pub proof fn law_move_view_back(c: (i64, i64), zoom: u64, there: InputDir, back: InputDir)
    requires
        (there == InputDir::Left && back == InputDir::Right) || (there == InputDir::Right && back
            == InputDir::Left) || (there == InputDir::Up && back == InputDir::Down) || (there == InputDir::Down
            && back == InputDir::Up),
        i64::MIN <= moved_center(c, zoom, there).0 <= i64::MAX,
        i64::MIN <= moved_center(c, zoom, there).1 <= i64::MAX,
    ensures
        moved_center(
            (moved_center(c, zoom, there).0 as i64, moved_center(c, zoom, there).1 as i64),
            zoom,
            back,
        ) == (c.0 as int, c.1 as int),
{
}

/// A drag that starts on a thing leaves that thing selected.
pub proof fn law_drag_selects_what_it_grabs(old: Set<Ref>, i: PointerInput, r: Ref)
    requires
        i.dragging,
        i.closest == Some(r),
    ensures
        normal_next_selection(old, NormalState::Default, i).contains(r),
{
}

/// A frame of the normal tool keeps the normal tool: from the default state
/// it goes to dragging, to a selection window or stays; a selection window
/// stays or ends; a drag stays or ends. Only the default state changes the
/// selection.
pub proof fn law_normal_state_transitions(old: Set<Ref>, state: NormalState, i: PointerInput)
    ensures
        normal_next_action(Action::Normal(state), state, i) matches Action::Normal(next) && match state {
            NormalState::Default => next == NormalState::Default || next == NormalState::DragMove
                || next is SelectWindow,
            NormalState::SelectWindow(a) => next == NormalState::SelectWindow(a) || next == NormalState::Default,
            NormalState::DragMove => next == NormalState::DragMove || next == NormalState::Default,
        },
        !(state is Default) ==> normal_next_selection(old, state, i) == old,
{
}

/// An edit's outcome is determined by the model and the edit: the result,
/// what `integrate` reports, the entities and the view are the same however
/// often it is applied to the same model.
pub proof fn law_edit_outcome_determined(
    old: Model,
    n1: Model,
    n2: Model,
    a: ModelAction,
    r1: Result<ModelUpdateResult, String>,
    r2: Result<ModelUpdateResult, String>,
)
    requires
        handle_event_post(old, n1, a, r1),
        handle_event_post(old, n2, a, r2),
    ensures
        reported(r1) == reported(r2),
        r1 is Err <==> r2 is Err,
        r1 is Err && r2 is Err ==> r1->Err_0@ == r2->Err_0@,
        n1.inf@ == n2.inf@,
        n1.view == n2.view,
        n1.scenarios@.len() == n2.scenarios@.len(),
{
}

/// Inserting a switch into a track splits it in two at the switch, and the
/// two parts together still run from where the track started to where it
/// ended, with their ports at those ends as they were. Facing up, the cut
/// track keeps its start and the new straight track ends where the track
/// ended; facing down, the cut track keeps its end and the new straight
/// track starts where the track started. The straight part and the branch
/// leave the switch on opposite courses, the branch on the switch's side,
/// and the branch ends at a new buffer stop a branch length away.
pub proof fn law_insert_switch_splits_track(
    old: Model,
    new: Model,
    t: TrackId,
    p: i64,
    dir: Dir,
    side: Side,
    l: i64,
    r: Result<ModelUpdateResult, String>,
    tr: Track,
)
    requires
        inf_edit_post(old, new, InfrastructureEdit::InsertNode(t, p, NodeType::Switch(dir, side), l), r),
        spec_track(old.inf@, t as int) == Some(tr),
        old.inf@.len() + 4 <= usize::MAX,
        dir == Dir::Up ==> i64::MIN <= p + l <= i64::MAX,
        dir == Dir::Down ==> i64::MIN <= p - l <= i64::MAX,
    ensures
        r == Ok::<ModelUpdateResult, String>(ModelUpdateResult::InfrastructureChanged),
        ({
            let n = old.inf@.len() as int;
            let sw = n as usize;
            &&& new.inf@.len() == n + 4
            &&& spec_node(new.inf@, n) == Some(Node(p, NodeType::Switch(dir, side)))
            &&& spec_track(new.inf@, t as int) matches Some(cut)
            &&& spec_track(new.inf@, n + 1) matches Some(straight)
            &&& spec_track(new.inf@, n + 3) matches Some(branch)
            &&& spec_node(new.inf@, n + 2) matches Some(stop)
            &&& stop.1 == NodeType::BufferStop
            &&& match dir {
                Dir::Up => {
                    &&& cut.start_node == tr.start_node
                    &&& cut.end_node.0 == sw
                    &&& straight.start_node.0 == sw
                    &&& straight.end_node == tr.end_node
                    &&& branch.start_node.0 == sw
                    &&& branch.end_node.0 == (n + 2) as usize
                    &&& (straight.start_node.1.course matches Some(c) && c != side)
                    &&& branch.start_node.1.course == Some(side)
                    &&& stop.0 == p + l
                },
                Dir::Down => {
                    &&& cut.end_node == tr.end_node
                    &&& cut.start_node.0 == sw
                    &&& straight.start_node == tr.start_node
                    &&& straight.end_node.0 == sw
                    &&& branch.end_node.0 == sw
                    &&& branch.start_node.0 == (n + 2) as usize
                    &&& (straight.end_node.1.course matches Some(c) && c != side)
                    &&& branch.end_node.1.course == Some(side)
                    &&& stop.0 == p - l
                },
            }
        }),
        new.view.selection == crate::view::Selection::Entity(EntityId::Node(old.inf@.len() as usize)),
{
}

/// Toggling changes only buffer stops and boundaries: on any other node,
/// or on an id that names no node, the entities stay as they were. On a
/// buffer stop or a boundary it keeps the node's position and only swaps
/// the kind of end.
pub proof fn law_toggle_touches_only_ends(
    old: Model,
    new: Model,
    id: NodeId,
    r: Result<ModelUpdateResult, String>,
)
    requires
        inf_edit_post(old, new, InfrastructureEdit::ToggleBufferMacro(id), r),
    ensures
        r is Ok,
        new.inf@.len() == old.inf@.len(),
        forall|j: int| 0 <= j < old.inf@.len() && j != id ==> #[trigger] new.inf@[j] == old.inf@[j],
        match spec_node(old.inf@, id as int) {
            Some(n) => match n.1 {
                NodeType::BufferStop => spec_node(new.inf@, id as int) == Some(Node(n.0, NodeType::Macro(None))),
                NodeType::Macro(_) => spec_node(new.inf@, id as int) == Some(Node(n.0, NodeType::BufferStop)),
                _ => new.inf@ == old.inf@,
            },
            None => new.inf@ == old.inf@,
        },
{
}

/// The track that `last_ending_at` finds does not depend on the order of
/// the two nodes.
proof fn lemma_last_ending_symmetric(ts: Seq<(TrackId, Track)>, a: NodeId, b: NodeId)
    ensures
        last_ending_at(ts, a, b) == last_ending_at(ts, b, a),
    decreases ts.len(),
{
    if ts.len() > 0 {
        lemma_last_ending_symmetric(ts.drop_last(), a, b);
    }
}

/// The track that `last_starting_at` finds does not depend on the order of
/// the two nodes.
proof fn lemma_last_starting_symmetric(ts: Seq<(TrackId, Track)>, a: NodeId, b: NodeId)
    ensures
        last_starting_at(ts, a, b) == last_starting_at(ts, b, a),
    decreases ts.len(),
{
    if ts.len() > 0 {
        lemma_last_starting_symmetric(ts.drop_last(), a, b);
    }
}

/// Where one of the listed tracks ends at `a` or `b`, `last_ending_at`
/// finds one.
proof fn lemma_last_ending_found(ts: Seq<(TrackId, Track)>, a: NodeId, b: NodeId, j: int)
    requires
        0 <= j < ts.len(),
        ts[j].1.end_node.0 == a || ts[j].1.end_node.0 == b,
    ensures
        last_ending_at(ts, a, b) is Some,
    decreases ts.len(),
{
    if j < ts.len() - 1 {
        assert(ts.drop_last()[j] == ts[j]);
        lemma_last_ending_found(ts.drop_last(), a, b, j);
    }
}

/// Where one of the listed tracks starts at `a` or `b`, `last_starting_at`
/// finds one.
proof fn lemma_last_starting_found(ts: Seq<(TrackId, Track)>, a: NodeId, b: NodeId, j: int)
    requires
        0 <= j < ts.len(),
        ts[j].1.start_node.0 == a || ts[j].1.start_node.0 == b,
    ensures
        last_starting_at(ts, a, b) is Some,
    decreases ts.len(),
{
    if j < ts.len() - 1 {
        assert(ts.drop_last()[j] == ts[j]);
        lemma_last_starting_found(ts.drop_last(), a, b, j);
    }
}

/// Every track among the first `k` slots is listed by `tracks_of`.
proof fn lemma_tracks_of_complete(s: Seq<Option<Entity>>, k: int, i: int, t: Track)
    requires
        0 <= i < k <= s.len(),
        s.len() <= usize::MAX,
        spec_track(s, i) == Some(t),
    ensures
        exists|j: int| 0 <= j < tracks_of(s, k).len() && #[trigger] tracks_of(s, k)[j] == (i as usize, t),
    decreases k,
{
    if i < k - 1 {
        lemma_tracks_of_complete(s, k - 1, i, t);
        let j = choose|j: int| 0 <= j < tracks_of(s, k - 1).len() && #[trigger] tracks_of(s, k - 1)[j] == (i as usize, t);
        assert(tracks_of(s, k)[j] == tracks_of(s, k - 1)[j]);
    } else {
        let prev = tracks_of(s, k - 1);
        assert(tracks_of(s, k)[prev.len() as int] == (i as usize, t));
    }
}

/// Joining two nodes does not depend on the order in which they are given:
/// the result, its message and the entities after are the same.
pub proof fn law_join_symmetric(
    s: Seq<Option<Entity>>,
    a: NodeId,
    b: NodeId,
    s1: Seq<Option<Entity>>,
    r1: Result<ModelUpdateResult, String>,
    s2: Seq<Option<Entity>>,
    r2: Result<ModelUpdateResult, String>,
)
    requires
        join_post(s, a, b, s1, r1),
        join_post(s, b, a, s2, r2),
    ensures
        s1 == s2,
        r1 is Ok <==> r2 is Ok,
        r1 is Ok ==> r1 == r2,
        r1 is Err ==> r1->Err_0@ == r2->Err_0@,
{
    let ts = tracks_of(s, s.len() as int);
    lemma_last_ending_symmetric(ts, a, b);
    lemma_last_starting_symmetric(ts, a, b);
}

/// Two single-port nodes join where a track ends at one of them and a track
/// starts at the other, whichever order they are given in.
pub proof fn law_join_succeeds_on_facing_ends(
    s: Seq<Option<Entity>>,
    a: NodeId,
    b: NodeId,
    t1: int,
    tr1: Track,
    t2: int,
    tr2: Track,
    news: Seq<Option<Entity>>,
    r: Result<ModelUpdateResult, String>,
)
    requires
        s.len() <= usize::MAX,
        spec_node(s, a as int) matches Some(na) && spec_num_ports(na.1) == 1,
        spec_node(s, b as int) matches Some(nb) && spec_num_ports(nb.1) == 1,
        spec_track(s, t1) == Some(tr1),
        spec_track(s, t2) == Some(tr2),
        tr1.end_node.0 == b || tr1.end_node.0 == a,
        tr2.start_node.0 == a || tr2.start_node.0 == b,
        join_post(s, a, b, news, r),
    ensures
        r == Ok::<ModelUpdateResult, String>(ModelUpdateResult::InfrastructureChanged),
{
    let ts = tracks_of(s, s.len() as int);
    assert(0 <= t1 < s.len());
    assert(0 <= t2 < s.len());
    lemma_tracks_of_complete(s, s.len() as int, t1, tr1);
    lemma_tracks_of_complete(s, s.len() as int, t2, tr2);
    let j1 = choose|j: int| 0 <= j < ts.len() && #[trigger] ts[j] == (t1 as usize, tr1);
    let j2 = choose|j: int| 0 <= j < ts.len() && #[trigger] ts[j] == (t2 as usize, tr2);
    lemma_last_ending_found(ts, a, b, j1);
    lemma_last_starting_found(ts, a, b, j2);
}

/// A click with shift held never drops anything from the selection, and
/// what is under the pointer ends up selected.
pub proof fn law_shift_click_keeps_selection(old: Set<Ref>, i: PointerInput)
    requires
        !i.dragging,
        i.released,
        i.shift,
    ensures
        old.subset_of(normal_next_selection(old, NormalState::Default, i)),
        i.closest matches Some(r) ==> normal_next_selection(old, NormalState::Default, i).contains(r),
        i.closest is None ==> normal_next_selection(old, NormalState::Default, i) == old,
{
}

/// A click without shift selects exactly what is under the pointer, or
/// nothing.
pub proof fn law_plain_click_replaces_selection(old: Set<Ref>, i: PointerInput)
    requires
        !i.dragging,
        i.released,
        !i.shift,
    ensures
        forall|x: Ref| #[trigger] normal_next_selection(old, NormalState::Default, i).contains(x) <==> i.closest == Some(x),
{
}

/// The line tool starts a line only on a press over the canvas: with no
/// line started, a frame with the pointer off the canvas or the button up
/// leaves the tool as it was and finishes no line, and a line never
/// finishes in the frame that starts it.
pub proof fn law_line_starts_only_over_canvas(old: Action, li: LineInput)
    ensures
        !(li.hovered && li.mouse_down) ==> line_step(old, None, li) == (old, Option::<(Pt, Pt)>::None),
        line_step(old, None, li).1 is None,
        li.hovered && li.mouse_down ==> line_step(old, None, li).0 == Action::DrawingLine(Some(li.pointer_ongrid)),
{
}

/// A started line finishes exactly when the button is up, from its start
/// to the pointer, and the tool is then ready for the next line.
pub proof fn law_line_finishes_on_release(old: Action, pt: Pt, li: LineInput)
    ensures
        line_step(old, Some(pt), li).1 is Some <==> !li.mouse_down,
        !li.mouse_down ==> line_step(old, Some(pt), li) == (Action::DrawingLine(None), Some((pt, li.pointer_ongrid))),
{
}

} // verus!
