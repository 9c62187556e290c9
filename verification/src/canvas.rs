use vstd::prelude::*;

verus! {

/// A point of the drawing grid.
pub type Pt = (i32, i32);

/// A position on the canvas, in pixels from its top left corner.
pub type ScreenPt = (i64, i64);

/// A thing drawn on the canvas that can be selected.
#[derive(Clone, Copy, Debug, PartialEq, Eq)]
pub enum Ref {
    Node(Pt),
    Track(Pt, Pt),
}

/// Whether two references name the same thing.
pub fn same_ref(a: &Ref, b: &Ref) -> (r: bool)
    ensures
        r == (*a == *b),
{
    match (a, b) {
        (Ref::Node(p), Ref::Node(q)) => p.0 == q.0 && p.1 == q.1,
        (Ref::Track(p1, p2), Ref::Track(q1, q2)) => p1.0 == q1.0 && p1.1 == q1.1 && p2.0 == q2.0 && p2.1
            == q2.1,
        _ => false,
    }
}

/// What the pointer does while no tool is active.
#[derive(Clone, Copy, Debug, PartialEq, Eq)]
pub enum NormalState {
    Default,
    /// Dragging out a selection window from this corner.
    SelectWindow(ScreenPt),
    DragMove,
}

/// The active tool.
#[derive(Clone, Copy, Debug, PartialEq, Eq)]
pub enum Action {
    Normal(NormalState),
    /// Drawing a line, from this point once the button went down.
    DrawingLine(Option<Pt>),
    DrawObjectType(Option<usize>),
}

/// An operation on the document's history.
#[derive(Clone, Copy, Debug, PartialEq, Eq, Structural)]
pub enum DocCommand {
    Undo,
    Redo,
}

/// What the pointer and the keyboard did in one frame, as the canvas
/// reads them in the normal state.
#[derive(Clone, Copy, Debug, PartialEq, Eq)]
pub struct PointerInput {
    /// The left button is held and the pointer has moved.
    pub dragging: bool,
    /// How far the pointer has moved since the left button went down.
    pub drag_delta: ScreenPt,
    /// The left button went up.
    pub released: bool,
    /// The right button was clicked.
    pub right_clicked: bool,
    /// Shift is held.
    pub shift: bool,
    /// Where the left button went down.
    pub click_pos: ScreenPt,
    /// The thing closest to the pointer, where one is near enough.
    pub closest: Option<Ref>,
}

/// What the canvas asks the front-end to do after a frame in the normal state.
#[derive(Clone, Copy, Debug, PartialEq, Eq)]
pub struct NormalOutput {
    /// A selection window to draw, from corner to corner.
    pub window: Option<(ScreenPt, ScreenPt)>,
    /// Open the context menu.
    pub open_context_menu: bool,
}

/// The state of the drawing canvas: its active tool and its selection.
pub struct Canvas {
    action: Action,
    /// The selected things, each once. A set of them is kept as a list
    /// without duplicates: a hashed set is proved here only for integer
    /// keys, and `Ref` is not one.
    selection: Vec<Ref>,
}

/// The keys of one frame, as the canvas reads them.
#[derive(Clone, Copy, Debug, PartialEq, Eq)]
pub struct KeyInput {
    pub ctrl: bool,
    pub shift: bool,
    pub z_pressed: bool,
    pub y_pressed: bool,
    pub a_pressed: bool,
    pub d_pressed: bool,
    pub s_pressed: bool,
    /// The canvas itself is the active widget.
    pub canvas_active: bool,
    /// Some widget is active.
    pub any_active: bool,
}

/// What the line tool reads in one frame.
#[derive(Clone, Copy, Debug, PartialEq, Eq)]
pub struct LineInput {
    /// The grid point under the pointer.
    pub pointer_ongrid: Pt,
    /// The pointer is over the canvas.
    pub hovered: bool,
    /// The left button is down.
    pub mouse_down: bool,
}

/// What the canvas asks the front-end to do after one frame.
#[derive(Clone, Debug, PartialEq, Eq)]
pub struct FrameOutput {
    /// History commands, in order.
    pub commands: Vec<DocCommand>,
    /// What the normal tool asks for, where it ran.
    pub normal: Option<NormalOutput>,
    /// A finished line, from its start to its end, to add to the drawing.
    pub line: Option<(Pt, Pt)>,
}

/// The tool after the tool keys of a frame; they count only while the
/// canvas is active or no widget is.
pub open spec fn frame_tool(old: Action, k: KeyInput) -> Action {
    if k.canvas_active || !k.any_active {
        keyed_action(old, k.a_pressed, k.d_pressed, k.s_pressed)
    } else {
        old
    }
}

/// The tool and the finished line after a frame of the line tool, started
/// at `from` if the button has gone down.
pub open spec fn line_step(old: Action, from: Option<Pt>, li: LineInput) -> (Action, Option<(Pt, Pt)>) {
    match from {
        Some(pt) => if li.mouse_down {
            (old, None)
        } else {
            (Action::DrawingLine(None), Some((pt, li.pointer_ongrid)))
        },
        None => if li.hovered && li.mouse_down {
            (Action::DrawingLine(Some(li.pointer_ongrid)), None)
        } else {
            (old, None)
        },
    }
}

/// The selection after a click that ends without a drag: without shift the
/// old selection is dropped, and the thing under the pointer is added.
pub open spec fn clicked_selection(old: Set<Ref>, shift: bool, closest: Option<Ref>) -> Set<Ref> {
    let kept = if shift {
        old
    } else {
        Set::empty()
    };
    match closest {
        Some(r) => kept.insert(r),
        None => kept,
    }
}

/// The tool after the tool keys of one frame: A, D and S choose the normal
/// tool, line drawing and object placing, and a later one of them wins.
pub open spec fn keyed_action(old: Action, a: bool, d: bool, s: bool) -> Action {
    if s {
        Action::DrawObjectType(None)
    } else if d {
        Action::DrawingLine(None)
    } else if a {
        Action::Normal(NormalState::Default)
    } else {
        old
    }
}

/// The history commands for the keys of one frame: ctrl-Z undoes,
/// ctrl-shift-Z and ctrl-Y redo, in that order.
pub open spec fn global_key_commands(ctrl: bool, shift: bool, z: bool, y: bool) -> Seq<DocCommand> {
    let s1 = if ctrl && !shift && z {
        seq![DocCommand::Undo]
    } else {
        Seq::empty()
    };
    let s2 = if ctrl && shift && z {
        s1.push(DocCommand::Redo)
    } else {
        s1
    };
    if ctrl && !shift && y {
        s2.push(DocCommand::Redo)
    } else {
        s2
    }
}

/// The tool after a frame in the normal state `state`.
pub open spec fn normal_next_action(old: Action, state: NormalState, i: PointerInput) -> Action {
    match state {
        NormalState::SelectWindow(_) => if i.dragging {
            old
        } else {
            Action::Normal(NormalState::Default)
        },
        NormalState::DragMove => if i.dragging {
            old
        } else {
            Action::Normal(NormalState::Default)
        },
        NormalState::Default => if i.dragging {
            match i.closest {
                Some(_) => Action::Normal(NormalState::DragMove),
                None => Action::Normal(NormalState::SelectWindow(i.click_pos)),
            }
        } else {
            old
        },
    }
}

/// The selection after a frame in the normal state `state`: a drag that
/// starts on an unselected thing selects just that thing, and a click
/// selects as `clicked_selection` says.
pub open spec fn normal_next_selection(old: Set<Ref>, state: NormalState, i: PointerInput) -> Set<Ref> {
    match state {
        NormalState::Default => if i.dragging {
            match i.closest {
                Some(r) => if old.contains(r) {
                    old
                } else {
                    set![r]
                },
                None => old,
            }
        } else if i.released {
            clicked_selection(old, i.shift, i.closest)
        } else {
            old
        },
        _ => old,
    }
}

/// What the front-end is asked to do after a frame in the normal state
/// `state`: draw the selection window while it is dragged out, and open
/// the context menu on a right click.
pub open spec fn normal_output(state: NormalState, i: PointerInput) -> NormalOutput {
    match state {
        NormalState::SelectWindow(a) => NormalOutput {
            window: if i.dragging {
                Some((a, ((a.0 + i.drag_delta.0) as i64, (a.1 + i.drag_delta.1) as i64)))
            } else {
                None
            },
            open_context_menu: false,
        },
        NormalState::DragMove => NormalOutput { window: None, open_context_menu: false },
        NormalState::Default => NormalOutput {
            window: None,
            open_context_menu: !i.dragging && i.right_clicked,
        },
    }
}

impl Canvas {
    #[verifier::type_invariant]
    closed spec fn wf(self) -> bool {
        self.selection@.no_duplicates()
    }

    /// The active tool.
    pub closed spec fn spec_action(self) -> Action {
        self.action
    }

    /// The selected things.
    pub closed spec fn spec_selection(self) -> Set<Ref> {
        self.selection@.to_set()
    }

    pub fn new() -> (c: Canvas)
        ensures
            c.spec_action() == Action::Normal(NormalState::Default),
            c.spec_selection() == Set::<Ref>::empty(),
    {
        let c = Canvas { action: Action::Normal(NormalState::Default), selection: Vec::new() };
        assert(c.selection@.to_set() =~= Set::<Ref>::empty());
        c
    }

    pub fn action(&self) -> (a: Action)
        ensures
            a == self.spec_action(),
    {
        self.action
    }

    /// The selected things, each once.
    pub fn selection(&self) -> (v: Vec<Ref>)
        ensures
            v@.to_set() == self.spec_selection(),
            v@.no_duplicates(),
    {
        proof {
            use_type_invariant(self);
        }
        let mut v: Vec<Ref> = Vec::new();
        let mut i: usize = 0;
        while i < self.selection.len()
            invariant
                i <= self.selection@.len(),
                v@ == self.selection@.take(i as int),
            decreases self.selection@.len() - i,
        {
            v.push(self.selection[i]);
            i += 1;
            assert(v@ =~= self.selection@.take(i as int));
        }
        assert(self.selection@.take(i as int) =~= self.selection@);
        v
    }

    fn contains(&self, r: &Ref) -> (b: bool)
        ensures
            b == self.spec_selection().contains(*r),
    {
        let mut i: usize = 0;
        while i < self.selection.len()
            invariant
                i <= self.selection@.len(),
                forall|j: int| 0 <= j < i ==> self.selection@[j] != *r,
            decreases self.selection@.len() - i,
        {
            if same_ref(&self.selection[i], r) {
                assert(self.selection@.to_set().contains(self.selection@[i as int]));
                return true;
            }
            i += 1;
        }
        proof {
            if self.selection@.to_set().contains(*r) {
                let j = choose|j: int| 0 <= j < self.selection@.len() && self.selection@[j] == *r;
            }
        }
        false
    }

    fn insert(&mut self, r: Ref)
        ensures
            final(self).spec_selection() == old(self).spec_selection().insert(r),
            final(self).spec_action() == old(self).spec_action(),
    {
        proof {
            use_type_invariant(&*self);
        }
        if !self.contains(&r) {
            let ghost s0 = self.selection@;
            assert(s0.push(r).no_duplicates()) by {
                let s1 = s0.push(r);
                assert forall|i: int, j: int| 0 <= i < s1.len() && 0 <= j < s1.len() && i != j implies s1[i]
                    != s1[j] by {
                    if i < s0.len() && j < s0.len() {
                    } else if i == s0.len() {
                        assert(s0.to_set().contains(s0[j]));
                    } else {
                        assert(s0.to_set().contains(s0[i]));
                    }
                }
            }
            let mut sel: Vec<Ref> = Vec::new();
            std::mem::swap(&mut sel, &mut self.selection);
            sel.push(r);
            assert(sel@ == s0.push(r));
            assert(sel@.to_set() =~= s0.to_set().insert(r)) by {
                assert forall|x: Ref| #[trigger] sel@.to_set().contains(x) == s0.to_set().insert(r).contains(x) by {
                    if x == r {
                        assert(sel@[s0.len() as int] == r);
                    } else if s0.contains(x) {
                        let j = choose|j: int| 0 <= j < s0.len() && s0[j] == x;
                        assert(sel@[j] == x);
                    }
                }
            }
            self.selection = sel;
        } else {
            assert(old(self).spec_selection().insert(r) =~= old(self).spec_selection());
        }
    }

    /// Switches the tool by the tool keys pressed in this frame.
    pub fn handle_keys(&mut self, a_pressed: bool, d_pressed: bool, s_pressed: bool)
        ensures
            final(self).spec_action() == keyed_action(old(self).spec_action(), a_pressed, d_pressed, s_pressed),
            final(self).spec_selection() == old(self).spec_selection(),
    {
        proof {
            use_type_invariant(&*self);
        }
        if a_pressed {
            self.action = Action::Normal(NormalState::Default);
        }
        if d_pressed {
            self.action = Action::DrawingLine(None);
        }
        if s_pressed {
            self.action = Action::DrawObjectType(None);
        }
    }

    /// The history commands that the keys pressed in this frame ask for, in order.
    pub fn handle_global_keys(&self, ctrl: bool, shift: bool, z_pressed: bool, y_pressed: bool) -> (cmds: Vec<
        DocCommand,
    >)
        ensures
            cmds@ == global_key_commands(ctrl, shift, z_pressed, y_pressed),
    {
        let mut cmds: Vec<DocCommand> = Vec::new();
        if ctrl && !shift && z_pressed {
            cmds.push(DocCommand::Undo);
        }
        if ctrl && shift && z_pressed {
            cmds.push(DocCommand::Redo);
        }
        if ctrl && !shift && y_pressed {
            cmds.push(DocCommand::Redo);
        }
        assert(cmds@ =~= global_key_commands(ctrl, shift, z_pressed, y_pressed));
        cmds
    }

    /// One frame of the normal tool, in state `state`.
    pub fn normalstate(&mut self, state: NormalState, input: PointerInput) -> (out: NormalOutput)
        requires
            state matches NormalState::SelectWindow(a) ==> {
                &&& i64::MIN <= a.0 + input.drag_delta.0 <= i64::MAX
                &&& i64::MIN <= a.1 + input.drag_delta.1 <= i64::MAX
            },
        ensures
            final(self).spec_action() == normal_next_action(old(self).spec_action(), state, input),
            final(self).spec_selection() == normal_next_selection(old(self).spec_selection(), state, input),
            out == normal_output(state, input),
    {
        proof {
            use_type_invariant(&*self);
        }
        let mut out = NormalOutput { window: None, open_context_menu: false };
        match state {
            NormalState::SelectWindow(a) => {
                let b = (a.0 + input.drag_delta.0, a.1 + input.drag_delta.1);
                if input.dragging {
                    out.window = Some((a, b));
                } else {
                    self.set_selection_window(a, b);
                    proof {
                        use_type_invariant(&*self);
                    }
                    self.action = Action::Normal(NormalState::Default);
                }
            },
            NormalState::DragMove => {
                if !input.dragging {
                    self.action = Action::Normal(NormalState::Default);
                }
            },
            NormalState::Default => {
                if input.dragging {
                    if let Some(r) = input.closest {
                        if !self.contains(&r) {
                            let mut only: Vec<Ref> = Vec::new();
                            only.push(r);
                            assert(only@.to_set() =~= set![r]) by {
                                assert(only@[0] == r);
                            }
                            self.selection = only;
                        }
                        self.action = Action::Normal(NormalState::DragMove);
                    } else {
                        self.action = Action::Normal(NormalState::SelectWindow(input.click_pos));
                    }
                } else {
                    if input.released {
                        if !input.shift {
                            self.selection = Vec::new();
                            assert(self.selection@.to_set() =~= Set::<Ref>::empty());
                        }
                        if let Some(r) = input.closest {
                            self.insert(r);
                        }
                    }
                    if input.right_clicked {
                        out.open_context_menu = true;
                    }
                }
            },
        }
        out
    }

    /// One frame of the line tool, started at `from` if the button has gone
    /// down. A press on the canvas starts a line at the pointer; releasing
    /// the button ends it, and the line from its start to the pointer is
    /// returned for the front-end to add to the drawing.
    pub fn drawingline(&mut self, from: Option<Pt>, pointer_ongrid: Pt, hovered: bool, mouse_down: bool) -> (line:
        Option<(Pt, Pt)>)
        ensures
            final(self).spec_selection() == old(self).spec_selection(),
            (final(self).spec_action(), line) == line_step(
                old(self).spec_action(),
                from,
                LineInput { pointer_ongrid, hovered, mouse_down },
            ),
            match from {
                Some(pt) => if mouse_down {
                    line is None && final(self).spec_action() == old(self).spec_action()
                } else {
                    line == Some((pt, pointer_ongrid)) && final(self).spec_action() == Action::DrawingLine(None)
                },
                None => line is None && final(self).spec_action() == if hovered && mouse_down {
                    Action::DrawingLine(Some(pointer_ongrid))
                } else {
                    old(self).spec_action()
                },
            },
    {
        proof {
            use_type_invariant(&*self);
        }
        if let Some(pt) = from {
            if !mouse_down {
                self.action = Action::DrawingLine(None);
                return Some((pt, pointer_ongrid));
            }
        } else {
            if hovered && mouse_down {
                self.action = Action::DrawingLine(Some(pointer_ongrid));
            }
        }
        None
    }

    /// One frame of the canvas: the history keys give commands, the tool
    /// keys switch the tool, and then the active tool runs. The object tool
    /// cannot run yet, so a frame must not end the keys on it.
    pub fn draw(&mut self, keys: KeyInput, input: PointerInput, line_input: LineInput) -> (out: FrameOutput)
        requires
            !(frame_tool(old(self).spec_action(), keys) is DrawObjectType),
            frame_tool(old(self).spec_action(), keys) matches Action::Normal(NormalState::SelectWindow(a)) ==> {
                &&& i64::MIN <= a.0 + input.drag_delta.0 <= i64::MAX
                &&& i64::MIN <= a.1 + input.drag_delta.1 <= i64::MAX
            },
        ensures
            out.commands@ == global_key_commands(keys.ctrl, keys.shift, keys.z_pressed, keys.y_pressed),
            match frame_tool(old(self).spec_action(), keys) {
                Action::Normal(n) => {
                    &&& final(self).spec_action() == normal_next_action(Action::Normal(n), n, input)
                    &&& final(self).spec_selection() == normal_next_selection(old(self).spec_selection(), n, input)
                    &&& out.normal == Some(normal_output(n, input))
                    &&& out.line is None
                },
                Action::DrawingLine(from) => {
                    &&& final(self).spec_action() == line_step(Action::DrawingLine(from), from, line_input).0
                    &&& out.line == line_step(Action::DrawingLine(from), from, line_input).1
                    &&& final(self).spec_selection() == old(self).spec_selection()
                    &&& out.normal is None
                },
                Action::DrawObjectType(_) => false,
            },
    {
        let commands = self.handle_global_keys(keys.ctrl, keys.shift, keys.z_pressed, keys.y_pressed);
        if keys.canvas_active || !keys.any_active {
            self.handle_keys(keys.a_pressed, keys.d_pressed, keys.s_pressed);
        }
        match self.action {
            Action::Normal(normal) => {
                let o = self.normalstate(normal, input);
                FrameOutput { commands, normal: Some(o), line: None }
            },
            Action::DrawingLine(from) => {
                let line = self.drawingline(from, line_input.pointer_ongrid, line_input.hovered, line_input.mouse_down);
                FrameOutput { commands, normal: None, line }
            },
            Action::DrawObjectType(_) => unreached(),
        }
    }

    /// Selects what a window from corner `a` to corner `b` encloses; a
    /// window does not select anything yet.
    pub fn set_selection_window(&mut self, a: ScreenPt, b: ScreenPt)
        ensures
            final(self).spec_action() == old(self).spec_action(),
            final(self).spec_selection() == old(self).spec_selection(),
    {
    }
}

} // verus!
