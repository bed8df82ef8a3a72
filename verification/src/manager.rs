//! The state of the window manager, and the engine that carries its work out
//! step by step.
//!
//! The manager never talks to the display server itself. A handler lays down
//! the steps that it wants taken; [`WindowManager::run`] takes the steps that
//! need no server and hands out the next request as an [`Action`]; the caller
//! performs the request and reports what came of it through
//! [`WindowManager::resume`]. What the manager is and does is described by the
//! functions of [`State`], its mathematical value.

use vstd::prelude::*;
use crate::geometry::Point;
use crate::geometry::Rect;
use crate::protocol::Atom;
use crate::protocol::ConfigureValues;
use crate::protocol::Geometry;
use crate::protocol::MessageData;
use crate::protocol::Outcome;
use crate::protocol::Request;
use crate::protocol::RequestError;
use crate::protocol::Wait;
use crate::protocol::CONTROL;
use crate::protocol::SHIFT;
use crate::registry::frame_of;
use crate::registry::is_pairing;
use crate::registry::with_pair;
use crate::registry::FrameRegistry;
use crate::registry::WindowId;
use crate::sequences::Ignored;
use crate::sequences::IgnoredSequences;
use crate::sequences::CAPACITY;

verus! {

/// The width of the border that every frame is given.
pub const FRAME_BORDER_WIDTH: u16 = 10;

/// The time stamp that stands for "now" in a message to a client.
pub const CURRENT_TIME: u32 = 0;

/// A key, together with the modifiers that have to be held with it.
#[derive(Clone, Copy, Debug, PartialEq, Eq, Structural)]
pub struct Chord {
    pub modifiers: u32,
    pub key: u8,
}

/// What the manager is configured with.
#[derive(Clone, Copy, Debug, PartialEq, Eq, Structural)]
pub struct Config {
    /// The window that the pointer enters takes the focus.
    pub focus_follows_mouse: bool,
    /// The modifiers that turn a button press over a client into a drag.
    pub drag_modifier: u32,
    /// Ends the client of the window under the pointer.
    pub kill_chord: Chord,
    /// Ends the manager.
    pub quit_chord: Chord,
}

/// The atoms that the manager has had interned.
#[derive(Clone, Copy, Debug, PartialEq, Eq, Structural)]
pub struct Atoms {
    /// The property in which a client lists the protocols that it takes part
    /// in, and the type of the messages of those protocols.
    pub wm_protocols: Atom,
    /// The protocol by which a client is asked to close a window.
    pub wm_delete_window: Atom,
    /// The type of the messages that the manager sends straight back.
    pub sync: Atom,
}

/// Why the manager is to end.
#[derive(Clone, Copy, Debug, PartialEq, Eq, Structural)]
pub enum QuitReason {
    /// The quit chord was pressed.
    UserQuit,
    /// A command asked for it.
    ExitCommand,
}

/// What is done with the reply to a question.
#[derive(Clone, Copy, Debug, PartialEq, Eq)]
pub enum Next {
    /// The geometry of a client that is to be framed has come.
    FrameGeometry { client: WindowId, existed: bool },
    /// The attributes of a client that was there before the manager have
    /// come.
    FrameAttributes { client: WindowId, geometry: Geometry },
    /// The identifier for the frame of a client has come.
    FrameId { client: WindowId, geometry: Geometry },
    /// The geometry of the frame that a drag starts on has come.
    DragRect,
    /// The protocols of a window that is to be closed have come.
    Protocols { window: WindowId },
    /// The children of the root have come, among which the one under
    /// `point` is looked for, to be closed.
    Children { point: Point },
    /// The geometry of a child that may lie under `point` has come.
    Candidate { window: WindowId, point: Point },
}

/// One step of the manager's work.
#[derive(Clone, Copy, Debug, PartialEq, Eq)]
pub enum Op {
    /// Have the request performed and wait for the server's verdict; a
    /// rejection ends the work.
    Checked(Request),
    /// Have the request performed and wait for the server's verdict, which
    /// is passed over.
    Tolerated(Request),
    /// Have the request issued, and do not wait.
    Unchecked(Request),
    /// Have the request performed and go on with its reply; a rejection ends
    /// the work.
    Ask(Request, Next),
    /// Enter a client and its frame into the registry.
    Register { client: WindowId, frame: WindowId },
    /// Take a client out of the registry.
    Unregister { client: WindowId },
    /// Give a window the focus.
    Focus { window: WindowId },
    /// Give the frame of a window the focus, or the window if it has none.
    FocusFramed { window: WindowId },
    /// Look at the next child that may lie under `point`.
    Probe { point: Point },
}

/// What the manager waits for.
#[derive(Clone, Copy, Debug, PartialEq, Eq)]
pub enum Awaiting {
    /// Nothing: no request is out.
    Nothing,
    /// An outcome that does not matter.
    Anything,
    /// The verdict on a request whose rejection ends the work.
    Verdict,
    /// The reply to a question.
    Reply(Next),
}

/// What the caller is to do next.
#[derive(Clone, Copy, Debug, PartialEq, Eq)]
pub enum Action {
    /// Perform the request, wait as told, and report the outcome through
    /// [`WindowManager::resume`].
    Perform { request: Request, wait: Wait },
    /// The work is finished, with this result.
    Finished(Result<(), RequestError>),
}

/// The mathematical value of a [`WindowManager`].
pub struct State {
    pub config: Config,
    pub atoms: Atoms,
    pub root: WindowId,
    /// The frame of each framed client.
    pub frames: Map<WindowId, WindowId>,
    /// The recorded sequences, oldest first.
    pub ignored: Seq<Ignored>,
    pub drag_start: Option<Point>,
    pub drag_rect: Option<Rect>,
    pub focused: Option<WindowId>,
    pub quit: Option<QuitReason>,
    /// The steps still to take, the next one first.
    pub queue: Seq<Op>,
    pub awaiting: Awaiting,
    /// The screen is to be brought up to date when the steps are through.
    pub render_due: bool,
    /// The children that may lie under the point looked for, the topmost
    /// last.
    pub candidates: Seq<WindowId>,
    /// The error that ended the work at hand.
    pub failure: Option<RequestError>,
}

/// The steps that put `client` into the frame `frame`: create the frame where
/// the client is, save the client from the manager's end, move it into the
/// frame, show the frame, enter the pair, and have drags and the kill key
/// reported.
pub open spec fn framing_steps(
    client: WindowId,
    frame: WindowId,
    root: WindowId,
    geometry: Geometry,
    config: Config,
) -> Seq<Op> {
    seq![
        Op::Checked(
            Request::CreateFrame {
                frame,
                parent: root,
                x: geometry.x,
                y: geometry.y,
                width: geometry.width,
                height: geometry.height,
                border_width: FRAME_BORDER_WIDTH,
            },
        ),
        Op::Checked(Request::AddToSaveSet { window: client }),
        Op::Checked(Request::ReparentWindow { window: client, parent: frame, x: 0, y: 0 }),
        Op::Checked(Request::MapWindow { window: frame }),
        Op::Register { client, frame },
        Op::Checked(Request::GrabButtons { window: client, confine_to: root, modifiers: config.drag_modifier }),
        Op::Checked(Request::GrabKey { window: client, key: config.kill_chord.key }),
    ]
}

/// The steps that take `client` out of `frame`. None of them ends the work:
/// by the time they are taken the client may be gone.
pub open spec fn unframing_steps(client: WindowId, frame: WindowId, root: WindowId) -> Seq<Op> {
    seq![
        Op::Tolerated(Request::UnmapWindow { window: frame }),
        Op::Unchecked(Request::ReparentWindow { window: client, parent: root, x: 0, y: 0 }),
        Op::Unchecked(Request::RemoveFromSaveSet { window: client }),
        Op::Unchecked(Request::DestroyWindow { window: frame }),
        Op::Unregister { client },
        Op::Unchecked(Request::Flush),
    ]
}

/// The steps that close `window`: a client that takes part in the close
/// protocol is asked to close it, the connection of any other is ended. By
/// then the client may be gone, so the server's verdict on that is passed
/// over.
pub open spec fn closing_steps(window: WindowId, graceful: bool, atoms: Atoms) -> Seq<Op> {
    if graceful {
        seq![
            Op::Unchecked(
                Request::SendMessage {
                    window,
                    kind: atoms.wm_protocols,
                    data: MessageData::Words([atoms.wm_delete_window, CURRENT_TIME, 0, 0, 0]),
                },
            ),
            Op::Unchecked(Request::Flush),
        ]
    } else {
        seq![Op::Tolerated(Request::KillClient { resource: window })]
    }
}

/// The steps that move `window`, by its frame if it has one.
pub open spec fn moving_steps(frames: Map<WindowId, WindowId>, window: WindowId, pos: Point) -> Seq<Op> {
    let target = match frame_of(frames, window) {
        Some(frame) => frame,
        None => window,
    };
    seq![Op::Checked(Request::ConfigureWindow { window: target, values: ConfigureValues::spec_position(pos.x, pos.y) })]
}

/// The steps that give `window` the place and size `rect`: a framed window
/// fills its frame, which takes the place.
pub open spec fn resizing_steps(frames: Map<WindowId, WindowId>, window: WindowId, rect: Rect) -> Seq<Op> {
    match frame_of(frames, window) {
        Some(frame) => seq![
            Op::Checked(Request::ConfigureWindow { window: frame, values: ConfigureValues::spec_placement(rect) }),
            Op::Checked(
                Request::ConfigureWindow {
                    window,
                    values: ConfigureValues::spec_placement(Rect { x: 0, y: 0, w: rect.w, h: rect.h }),
                },
            ),
        ],
        None => seq![
            Op::Checked(Request::ConfigureWindow { window, values: ConfigureValues::spec_placement(rect) }),
        ],
    }
}

/// The result that the work at hand ends with.
pub open spec fn result_of(failure: Option<RequestError>) -> Result<(), RequestError> {
    match failure {
        Some(e) => Err(e),
        None => Ok(()),
    }
}

impl Config {
    /// Control starts a drag, Control with the key `0x18` ends the client
    /// under the pointer, Control and Shift with that key end the manager.
    pub open spec fn spec_standard(focus_follows_mouse: bool) -> Config {
        Config {
            focus_follows_mouse,
            drag_modifier: CONTROL,
            kill_chord: Chord { modifiers: CONTROL, key: 0x18 },
            quit_chord: Chord { modifiers: 0x0005, key: 0x18 },
        }
    }

    /// The configuration with the usual chords.
    pub fn standard(focus_follows_mouse: bool) -> (c: Config)
        ensures
            c == Config::spec_standard(focus_follows_mouse),
            c.quit_chord.modifiers == CONTROL | SHIFT,
    {
        assert(CONTROL | SHIFT == 0x0005) by (bit_vector);
        Config {
            focus_follows_mouse,
            drag_modifier: CONTROL,
            kill_chord: Chord { modifiers: CONTROL, key: 0x18 },
            quit_chord: Chord { modifiers: CONTROL | SHIFT, key: 0x18 },
        }
    }
}

impl State {
    /// The invariant of the manager's value.
    pub open spec fn wf(self) -> bool {
        &&& is_pairing(self.frames)
        &&& self.ignored.len() <= CAPACITY
        &&& self.drag_start matches Some(p) ==> p@.on_wire()
        &&& self.drag_rect matches Some(r) ==> r@.on_wire()
    }

    /// No work is at hand.
    pub open spec fn idle(self) -> bool {
        &&& self.queue.len() == 0
        &&& self.awaiting == Awaiting::Nothing
        &&& !self.render_due
        &&& self.candidates.len() == 0
        &&& self.failure is None
    }

    /// The state with `ops` to be taken before the steps already laid down.
    pub open spec fn schedule(self, ops: Seq<Op>) -> State {
        State { queue: ops + self.queue, ..self }
    }

    /// The state after the work at hand has been given up for `error`.
    pub open spec fn abort(self, error: RequestError) -> State {
        State { queue: Seq::empty(), candidates: Seq::empty(), failure: Some(error), ..self }
    }

    /// The state with the work at hand dropped, ready for new work, after
    /// which the screen is or is not brought up to date.
    pub open spec fn fresh(self, render: bool) -> State {
        State {
            queue: Seq::empty(),
            candidates: Seq::empty(),
            failure: None,
            awaiting: Awaiting::Nothing,
            render_due: render,
            ..self
        }
    }

    /// The state after a step that needs no server has been taken. Any other
    /// step leaves the state as it is.
    pub open spec fn apply(self, op: Op) -> State {
        match op {
            Op::Register { client, frame } => State { frames: with_pair(self.frames, client, frame), ..self },
            Op::Unregister { client } => State { frames: self.frames.remove(client), ..self },
            Op::Focus { window } => State { focused: Some(window), ..self },
            Op::FocusFramed { window } => State {
                focused: Some(
                    match frame_of(self.frames, window) {
                        Some(frame) => frame,
                        None => window,
                    },
                ),
                ..self
            },
            _ => self,
        }
    }

    /// Takes steps until one needs the server, and hands that request out.
    /// When no step is left, the screen is brought up to date if that is
    /// due, and then the work is finished.
    pub open spec fn run(self) -> (State, Action)
        decreases self.queue.len(),
    {
        if self.queue.len() == 0 {
            if self.render_due {
                (
                    State { render_due: false, awaiting: Awaiting::Anything, ..self },
                    Action::Perform { request: Request::Render, wait: Wait::No },
                )
            } else {
                (
                    State { awaiting: Awaiting::Nothing, failure: None, ..self },
                    Action::Finished(result_of(self.failure)),
                )
            }
        } else {
            let rest = State { queue: self.queue.remove(0), ..self };
            match self.queue[0] {
                Op::Checked(request) => (
                    State { awaiting: Awaiting::Verdict, ..rest },
                    Action::Perform { request, wait: Wait::ForVerdict },
                ),
                Op::Tolerated(request) => (
                    State { awaiting: Awaiting::Anything, ..rest },
                    Action::Perform { request, wait: Wait::ForVerdict },
                ),
                Op::Unchecked(request) => (
                    State { awaiting: Awaiting::Anything, ..rest },
                    Action::Perform { request, wait: Wait::No },
                ),
                Op::Ask(request, next) => (
                    State { awaiting: Awaiting::Reply(next), ..rest },
                    Action::Perform { request, wait: Wait::ForReply },
                ),
                Op::Probe { point } => if rest.candidates.len() == 0 {
                    rest.run()
                } else {
                    let window = rest.candidates.last();
                    (
                        State {
                            candidates: rest.candidates.drop_last(),
                            awaiting: Awaiting::Reply(Next::Candidate { window, point }),
                            ..rest
                        },
                        Action::Perform { request: Request::GetGeometry { window }, wait: Wait::ForReply },
                    )
                },
                op => rest.apply(op).run(),
            }
        }
    }

    /// The state with the closing of `window` laid down: its protocols are
    /// asked for, and the reply decides how it is closed.
    pub open spec fn kill_window(self, window: WindowId) -> State {
        self.schedule(
            seq![
                Op::Ask(
                    Request::GetAtoms { window, property: self.atoms.wm_protocols },
                    Next::Protocols { window },
                ),
            ],
        )
    }

    /// The state after the reply `outcome` to a question has been dealt with
    /// as `next` says. A rejection, and a reply of the wrong kind, end the
    /// work.
    pub open spec fn answer(self, next: Next, outcome: Outcome) -> State {
        match (next, outcome) {
            (_, Outcome::Failed { code }) => self.abort(RequestError::Rejected { code }),
            (Next::FrameGeometry { client, existed }, Outcome::Geometry(geometry)) => if existed {
                self.schedule(
                    seq![
                        Op::Ask(
                            Request::GetWindowAttributes { window: client },
                            Next::FrameAttributes { client, geometry },
                        ),
                    ],
                )
            } else {
                self.schedule(seq![Op::Ask(Request::GenerateId, Next::FrameId { client, geometry })])
            },
            (Next::FrameAttributes { client, geometry }, Outcome::Attributes(attributes)) => if attributes.override_redirect
                || !attributes.viewable {
                self
            } else {
                self.schedule(seq![Op::Ask(Request::GenerateId, Next::FrameId { client, geometry })])
            },
            (Next::FrameId { client, geometry }, Outcome::Id(frame)) => if frame == client {
                self.abort(RequestError::UnexpectedReply)
            } else {
                self.schedule(framing_steps(client, frame, self.root, geometry, self.config))
            },
            (Next::DragRect, Outcome::Geometry(geometry)) => State {
                drag_rect: Some(geometry.area().to_rect()),
                ..self
            },
            (Next::Protocols { window }, Outcome::Atoms(protocols)) => self.schedule(
                closing_steps(window, protocols@.contains(self.atoms.wm_delete_window), self.atoms),
            ),
            (Next::Children { point }, Outcome::Children(children)) => State {
                candidates: children@,
                ..self
            }.schedule(seq![Op::Probe { point }]),
            (Next::Candidate { window, point }, Outcome::Geometry(geometry)) => if geometry.area().contains(
                point@,
            ) {
                State { candidates: Seq::empty(), ..self }.kill_window(window)
            } else {
                self.schedule(seq![Op::Probe { point }])
            },
            _ => self.abort(RequestError::UnexpectedReply),
        }
    }

    /// The state after `outcome` has been reported, before the next steps
    /// are taken.
    pub open spec fn receive(self, outcome: Outcome) -> State {
        match self.awaiting {
            Awaiting::Nothing => self,
            Awaiting::Anything => self,
            Awaiting::Verdict => match outcome {
                Outcome::Failed { code } => self.abort(RequestError::Rejected { code }),
                _ => self,
            },
            Awaiting::Reply(next) => self.answer(next, outcome),
        }
    }

    /// What the manager does when told what came of the request that it
    /// handed out last.
    pub open spec fn resume(self, outcome: Outcome) -> (State, Action) {
        self.receive(outcome).run()
    }
}

/// The one step `op`.
pub fn single(op: Op) -> (ops: Vec<Op>)
    ensures
        ops@ == seq![op],
{
    let ops: Vec<Op> = vec![op];
    assert(ops@ =~= seq![op]);
    ops
}

/// The window manager: what it knows of its windows, and the work that it
/// has at hand.
pub struct WindowManager {
    pub config: Config,
    pub atoms: Atoms,
    /// The root window, under which every frame is created.
    pub root: WindowId,
    pub framed_clients: FrameRegistry,
    pub ignored_sequences: IgnoredSequences,
    /// Where the pointer was when the drag at hand began.
    pub drag_start: Option<Point>,
    /// Where the dragged frame was when the drag began.
    pub drag_start_frame_rect: Option<Rect>,
    pub focused_window: Option<WindowId>,
    pub quit_reason: Option<QuitReason>,
    pub queue: Vec<Op>,
    pub awaiting: Awaiting,
    pub render_due: bool,
    pub candidates: Vec<WindowId>,
    pub failure: Option<RequestError>,
}

impl View for WindowManager {
    type V = State;

    open spec fn view(&self) -> State {
        State {
            config: self.config,
            atoms: self.atoms,
            root: self.root,
            frames: self.framed_clients@,
            ignored: self.ignored_sequences@,
            drag_start: self.drag_start,
            drag_rect: self.drag_start_frame_rect,
            focused: self.focused_window,
            quit: self.quit_reason,
            queue: self.queue@,
            awaiting: self.awaiting,
            render_due: self.render_due,
            candidates: self.candidates@,
            failure: self.failure,
        }
    }
}

impl WindowManager {
    /// The invariant of the manager.
    pub open spec fn wf(&self) -> bool {
        &&& self.framed_clients.wf()
        &&& self.ignored_sequences.wf()
        &&& self@.wf()
    }

    /// A manager that knows no window and has no work at hand.
    pub fn new(config: Config, atoms: Atoms, root: WindowId) -> (wm: WindowManager)
        ensures
            wm.wf(),
            wm@.idle(),
            wm@.config == config,
            wm@.atoms == atoms,
            wm@.root == root,
            wm@.frames == Map::<WindowId, WindowId>::empty(),
            wm@.ignored == Seq::<Ignored>::empty(),
            wm@.drag_start is None,
            wm@.drag_rect is None,
            wm@.focused is None,
            wm@.quit is None,
    {
        let wm = WindowManager {
            config,
            atoms,
            root,
            framed_clients: FrameRegistry::new(),
            ignored_sequences: IgnoredSequences::new(),
            drag_start: None,
            drag_start_frame_rect: None,
            focused_window: None,
            quit_reason: None,
            queue: Vec::new(),
            awaiting: Awaiting::Nothing,
            render_due: false,
            candidates: Vec::new(),
            failure: None,
        };
        proof {
            wm.framed_clients.lemma_pairing();
        }
        wm
    }

    /// Whether the manager has been told to end, and why.
    pub fn quit_requested(&self) -> (reason: Option<QuitReason>)
        ensures
            reason == self@.quit,
    {
        self.quit_reason
    }

    /// Whether no work is at hand.
    pub fn is_idle(&self) -> (idle: bool)
        ensures
            idle == self@.idle(),
    {
        self.queue.len() == 0 && self.candidates.len() == 0 && !self.render_due && match self.awaiting {
            Awaiting::Nothing => true,
            _ => false,
        } && match self.failure {
            None => true,
            Some(_) => false,
        }
    }

    /// Lays `ops` down to be taken before the steps already laid down.
    pub fn schedule(&mut self, ops: Vec<Op>)
        requires
            old(self).wf(),
        ensures
            final(self).wf(),
            final(self)@ == old(self)@.schedule(ops@),
    {
        let mut ops = ops;
        ops.append(&mut self.queue);
        self.queue = ops;
    }

    /// Gives the work at hand up for `error`.
    pub fn abort(&mut self, error: RequestError)
        requires
            old(self).wf(),
        ensures
            final(self).wf(),
            final(self)@ == old(self)@.abort(error),
    {
        self.queue = Vec::new();
        self.candidates = Vec::new();
        self.failure = Some(error);
    }

    /// Drops the work at hand and makes ready for new work.
    pub fn fresh(&mut self, render: bool)
        requires
            old(self).wf(),
        ensures
            final(self).wf(),
            final(self)@ == old(self)@.fresh(render),
    {
        self.queue = Vec::new();
        self.candidates = Vec::new();
        self.failure = None;
        self.awaiting = Awaiting::Nothing;
        self.render_due = render;
    }

    /// Takes steps until one needs the server, and hands that request out.
    pub fn run(&mut self) -> (action: Action)
        requires
            old(self).wf(),
        ensures
            final(self).wf(),
            final(self)@ == old(self)@.run().0,
            action == old(self)@.run().1,
    {
        let ghost start = self@;
        loop
            invariant
                self.wf(),
                start == old(self)@,
                self@.run() == start.run(),
            decreases self.queue@.len(),
        {
            if self.queue.len() == 0 {
                if self.render_due {
                    self.render_due = false;
                    self.awaiting = Awaiting::Anything;
                    return Action::Perform { request: Request::Render, wait: Wait::No };
                }
                let result: Result<(), RequestError> = match self.failure {
                    Some(e) => Err(e),
                    None => Ok(()),
                };
                self.failure = None;
                self.awaiting = Awaiting::Nothing;
                return Action::Finished(result);
            }
            let ghost before = self@;
            let op: Op = self.queue.remove(0);
            match op {
                Op::Checked(request) => {
                    self.awaiting = Awaiting::Verdict;
                    return Action::Perform { request, wait: Wait::ForVerdict };
                },
                Op::Tolerated(request) => {
                    self.awaiting = Awaiting::Anything;
                    return Action::Perform { request, wait: Wait::ForVerdict };
                },
                Op::Unchecked(request) => {
                    self.awaiting = Awaiting::Anything;
                    return Action::Perform { request, wait: Wait::No };
                },
                Op::Ask(request, next) => {
                    self.awaiting = Awaiting::Reply(next);
                    return Action::Perform { request, wait: Wait::ForReply };
                },
                Op::Probe { point } => {
                    match self.candidates.pop() {
                        Some(window) => {
                            self.awaiting = Awaiting::Reply(Next::Candidate { window, point });
                            return Action::Perform { request: Request::GetGeometry { window }, wait: Wait::ForReply };
                        },
                        None => {},
                    }
                },
                Op::Register { client, frame } => {
                    self.framed_clients.insert(client, frame);
                    proof {
                        self.framed_clients.lemma_pairing();
                    }
                },
                Op::Unregister { client } => {
                    self.framed_clients.remove_by_left(client);
                    proof {
                        self.framed_clients.lemma_pairing();
                    }
                },
                Op::Focus { window } => {
                    self.focused_window = Some(window);
                },
                Op::FocusFramed { window } => {
                    let target: WindowId = match self.framed_clients.get_by_left(window) {
                        Some(frame) => frame,
                        None => window,
                    };
                    self.focused_window = Some(target);
                },
            }
            assert(before.run() == self@.run());
        }
    }

    /// Whether a client that lists `protocols` takes part in the close
    /// protocol.
    pub fn supports_wm_delete_window(&self, protocols: &Vec<Atom>) -> (supported: bool)
        ensures
            supported == protocols@.contains(self@.atoms.wm_delete_window),
    {
        let wanted: Atom = self.atoms.wm_delete_window;
        let mut i: usize = 0;
        while i < protocols.len()
            invariant
                i <= protocols@.len(),
                wanted == self@.atoms.wm_delete_window,
                forall|j: int| 0 <= j < i ==> protocols@[j] != wanted,
            decreases protocols@.len() - i,
        {
            if protocols[i] == wanted {
                assert(protocols@[i as int] == wanted);
                return true;
            }
            i += 1;
        }
        false
    }

    /// Lays down the closing of `window`: its protocols are asked for, and
    /// the reply decides whether its client is asked to close it or is
    /// ended.
    pub fn kill_window(&mut self, window: WindowId)
        requires
            old(self).wf(),
        ensures
            final(self).wf(),
            final(self)@ == old(self)@.kill_window(window),
    {
        let property: Atom = self.atoms.wm_protocols;
        self.schedule(single(Op::Ask(Request::GetAtoms { window, property }, Next::Protocols { window })));
    }

    /// The steps that close `window`, given whether its client takes part in
    /// the close protocol.
    pub fn closing_steps(&self, window: WindowId, graceful: bool) -> (ops: Vec<Op>)
        ensures
            ops@ == closing_steps(window, graceful, self@.atoms),
    {
        if graceful {
            let data: MessageData = MessageData::Words([self.atoms.wm_delete_window, CURRENT_TIME, 0, 0, 0]);
            let ops: Vec<Op> = vec![
                Op::Unchecked(Request::SendMessage { window, kind: self.atoms.wm_protocols, data }),
                Op::Unchecked(Request::Flush),
            ];
            assert(ops@ =~= closing_steps(window, graceful, self@.atoms));
            ops
        } else {
            single(Op::Tolerated(Request::KillClient { resource: window }))
        }
    }

    /// The steps that put `client` into `frame`.
    pub fn framing_steps(&self, client: WindowId, frame: WindowId, geometry: Geometry) -> (ops: Vec<Op>)
        ensures
            ops@ == framing_steps(client, frame, self@.root, geometry, self@.config),
    {
        let ops: Vec<Op> = vec![
            Op::Checked(
                Request::CreateFrame {
                    frame,
                    parent: self.root,
                    x: geometry.x,
                    y: geometry.y,
                    width: geometry.width,
                    height: geometry.height,
                    border_width: FRAME_BORDER_WIDTH,
                },
            ),
            Op::Checked(Request::AddToSaveSet { window: client }),
            Op::Checked(Request::ReparentWindow { window: client, parent: frame, x: 0, y: 0 }),
            Op::Checked(Request::MapWindow { window: frame }),
            Op::Register { client, frame },
            Op::Checked(
                Request::GrabButtons { window: client, confine_to: self.root, modifiers: self.config.drag_modifier },
            ),
            Op::Checked(Request::GrabKey { window: client, key: self.config.kill_chord.key }),
        ];
        assert(ops@ =~= framing_steps(client, frame, self@.root, geometry, self@.config));
        ops
    }

    /// Deals with the reply `outcome` to a question as `next` says.
    pub fn answer(&mut self, next: Next, outcome: Outcome)
        requires
            old(self).wf(),
        ensures
            final(self).wf(),
            final(self)@ == old(self)@.answer(next, outcome),
    {
        match outcome {
            Outcome::Failed { code } => {
                self.abort(RequestError::Rejected { code });
            },
            Outcome::Geometry(geometry) => match next {
                Next::FrameGeometry { client, existed } => {
                    if existed {
                        self.schedule(
                            single(
                                Op::Ask(
                                    Request::GetWindowAttributes { window: client },
                                    Next::FrameAttributes { client, geometry },
                                ),
                            ),
                        );
                    } else {
                        self.schedule(single(Op::Ask(Request::GenerateId, Next::FrameId { client, geometry })));
                    }
                },
                Next::DragRect => {
                    self.drag_start_frame_rect = Some(geometry.rect());
                },
                Next::Candidate { window, point } => {
                    if geometry.rect().contains(&point) {
                        self.candidates = Vec::new();
                        self.kill_window(window);
                    } else {
                        self.schedule(single(Op::Probe { point }));
                    }
                },
                _ => {
                    self.abort(RequestError::UnexpectedReply);
                },
            },
            Outcome::Attributes(attributes) => match next {
                Next::FrameAttributes { client, geometry } => {
                    if !(attributes.override_redirect || !attributes.viewable) {
                        self.schedule(single(Op::Ask(Request::GenerateId, Next::FrameId { client, geometry })));
                    }
                },
                _ => {
                    self.abort(RequestError::UnexpectedReply);
                },
            },
            Outcome::Id(frame) => match next {
                Next::FrameId { client, geometry } => {
                    if frame == client {
                        self.abort(RequestError::UnexpectedReply);
                    } else {
                        let ops: Vec<Op> = self.framing_steps(client, frame, geometry);
                        self.schedule(ops);
                    }
                },
                _ => {
                    self.abort(RequestError::UnexpectedReply);
                },
            },
            Outcome::Atoms(protocols) => match next {
                Next::Protocols { window } => {
                    let graceful: bool = self.supports_wm_delete_window(&protocols);
                    let ops: Vec<Op> = self.closing_steps(window, graceful);
                    self.schedule(ops);
                },
                _ => {
                    self.abort(RequestError::UnexpectedReply);
                },
            },
            Outcome::Children(children) => match next {
                Next::Children { point } => {
                    self.candidates = children;
                    self.schedule(single(Op::Probe { point }));
                },
                _ => {
                    self.abort(RequestError::UnexpectedReply);
                },
            },
            Outcome::Done => {
                self.abort(RequestError::UnexpectedReply);
            },
        }
    }

    /// Takes in what came of the request that was handed out last.
    pub fn receive(&mut self, outcome: Outcome)
        requires
            old(self).wf(),
        ensures
            final(self).wf(),
            final(self)@ == old(self)@.receive(outcome),
    {
        match self.awaiting {
            Awaiting::Nothing => {},
            Awaiting::Anything => {},
            Awaiting::Verdict => match outcome {
                Outcome::Failed { code } => {
                    self.abort(RequestError::Rejected { code });
                },
                _ => {},
            },
            Awaiting::Reply(next) => {
                self.answer(next, outcome);
            },
        }
    }

    /// Takes in what came of the request that was handed out last, and
    /// hands out the next one or finishes.
    pub fn resume(&mut self, outcome: Outcome) -> (action: Action)
        requires
            old(self).wf(),
        ensures
            final(self).wf(),
            final(self)@ == old(self)@.resume(outcome).0,
            action == old(self)@.resume(outcome).1,
    {
        self.receive(outcome);
        self.run()
    }
}

} // verus!
