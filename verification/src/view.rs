use vstd::prelude::*;
use crate::infrastructure::{EntityId, Pos, TrackId};

verus! {

/// What the user has selected in the view.
#[derive(Clone, Copy, Debug, PartialEq, Eq, Structural)]
pub enum Selection {
    /// Nothing is selected.
    Empty,
    Entity(EntityId),
    /// A position along a track, with a lateral offset.
    Pos(Pos, Pos, TrackId),
}

/// A direction given by the arrow keys.
#[derive(Clone, Copy, Debug, PartialEq, Eq, Structural)]
pub enum InputDir {
    Left,
    Right,
    Up,
    Down,
}

/// The part of the world that is shown, and what is selected in it.
#[derive(Clone, Copy, Debug, PartialEq, Eq)]
pub struct View {
    /// The centre of the view, in hundredths of the world unit, and the
    /// width of the world that it shows, in world units.
    pub viewport: ((i64, i64), u64),
    pub selection: Selection,
    pub hot_route: Option<usize>,
}

pub open spec fn spec_default_view() -> View {
    View { viewport: ((0, 0), 10), selection: Selection::Empty, hot_route: None }
}

impl View {
    pub fn new_default() -> (v: View)
        ensures
            v == spec_default_view(),
    {
        View { viewport: ((0, 0), 10), selection: Selection::Empty, hot_route: None }
    }
}

} // verus!
