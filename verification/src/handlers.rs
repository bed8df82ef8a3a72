//! The handlers of the events and commands that reach the manager.
//!
//! A handler changes what the manager knows and lays down the steps that the
//! event calls for. [`WindowManager::handle_event`] picks the handler, lets it
//! work, and starts on the steps.

use vstd::prelude::*;
use crate::geometry::drag_move_target;
use crate::geometry::drag_resize_target;
use crate::geometry::lemma_wire_drag_fits;
use crate::geometry::Point;
use crate::geometry::Quadrant;
use crate::geometry::Rect;
use crate::manager::Action;
use crate::manager::Chord;
use crate::manager::Op;
use crate::manager::QuitReason;
use crate::manager::State;
use crate::manager::WindowManager;
use crate::manager::Next;
use crate::protocol::holds_all;
use crate::protocol::state_contains;
use crate::protocol::Atom;
use crate::protocol::Command;
use crate::protocol::ConfigureValues;
use crate::protocol::Event;
use crate::protocol::MessageData;
use crate::protocol::Request;
use crate::protocol::StackMode;
use crate::protocol::BUTTON1;
use crate::protocol::BUTTON3;
use crate::protocol::ENTER_NOTIFY;
use crate::registry::client_of;
use crate::registry::frame_of;
use crate::registry::WindowId;
use crate::sequences::any_covers;
use crate::sequences::with_record;
use crate::sequences::without_covering;
use crate::sequences::Ignored;
use crate::windows::resolve;

verus! {

/// The point that an event reports.
pub open spec fn wire_point(x: i16, y: i16) -> Point {
    Point { x: x as i32, y: y as i32 }
}

/// The chord is pressed: its key, with all of its modifiers held.
pub open spec fn chord_pressed(chord: Chord, state: u32, detail: u8) -> bool {
    holds_all(state, chord.modifiers) && detail == chord.key
}

/// The values of a configure request that asks for exactly what the event
/// reports.
pub open spec fn requested_values(
    x: i16,
    y: i16,
    width: u16,
    height: u16,
    border_width: u16,
    stack_mode: StackMode,
) -> ConfigureValues {
    ConfigureValues {
        x: Some(x as i32),
        y: Some(y as i32),
        width: Some(width as u32),
        height: Some(height as u32),
        border_width: Some(border_width as u32),
        stack_mode: Some(stack_mode),
    }
}

/// The steps that pass a client's wish for `values` on: to its frame, if it
/// has one, and to the window itself.
pub open spec fn configuring_steps(frames: Map<WindowId, WindowId>, window: WindowId, values: ConfigureValues) -> Seq<
    Op,
> {
    match frame_of(frames, window) {
        Some(frame) => seq![
            Op::Checked(Request::ConfigureWindow { window: frame, values }),
            Op::Checked(Request::ConfigureWindow { window, values }),
        ],
        None => seq![Op::Checked(Request::ConfigureWindow { window, values })],
    }
}

/// The steps that follow a button press on the pair `window`, `frame`: if a
/// drag starts, the frame's geometry is asked for; in any case the window
/// takes the focus and the frame is raised.
pub open spec fn pressing_steps(window: WindowId, frame: WindowId, drag: bool) -> Seq<Op> {
    let tail = seq![
        Op::Focus { window },
        Op::Checked(Request::ConfigureWindow { window: frame, values: ConfigureValues::spec_raise() }),
    ];
    if drag {
        seq![Op::Ask(Request::GetGeometry { window: frame }, Next::DragRect)] + tail
    } else {
        tail
    }
}

impl State {
    /// A client asks for a new geometry: the wish is passed on as it is.
    pub open spec fn on_configure_request(
        self,
        window: WindowId,
        x: i16,
        y: i16,
        width: u16,
        height: u16,
        border_width: u16,
        stack_mode: StackMode,
    ) -> State {
        self.schedule(
            configuring_steps(
                self.frames,
                window,
                requested_values(x, y, width, height, border_width, stack_mode),
            ),
        )
    }

    /// A client asks to be shown: its sequence is recorded, it is framed,
    /// then shown, and its frame takes the focus.
    pub open spec fn on_map_request(self, sequence: u16, window: WindowId) -> State {
        State { ignored: with_record(self.ignored, Ignored { sequence, kind: None }), ..self }.schedule(
            seq![Op::Checked(Request::MapWindow { window }), Op::FocusFramed { window }],
        ).frame_window(window, false)
    }

    /// A window has been hidden. What the root reports is passed over.
    /// Otherwise the enter-notify events of the sequence are to be
    /// swallowed, and the window is taken out of its frame.
    pub open spec fn on_unmap_notify(self, sequence: u16, event: WindowId, window: WindowId) -> State {
        if event == self.root {
            self
        } else {
            State {
                ignored: with_record(self.ignored, Ignored { sequence, kind: Some(ENTER_NOTIFY) }),
                ..self
            }.unframe_window(window)
        }
    }

    /// A key has been pressed: the quit chord ends the manager; otherwise
    /// the kill chord closes the window under the pointer.
    pub open spec fn on_key_press(self, state: u32, detail: u8, root: WindowId, root_x: i16, root_y: i16) -> State {
        if chord_pressed(self.config.quit_chord, state, detail) {
            State { quit: Some(QuitReason::UserQuit), ..self }
        } else if chord_pressed(self.config.kill_chord, state, detail) {
            self.kill_window_at_pos(root, wire_point(root_x, root_y))
        } else {
            self
        }
    }

    /// A button has been pressed over `event`. If that is a client or a
    /// frame, a drag starts where the drag modifier is held or the frame
    /// itself was pressed; the client takes the focus and its frame is
    /// raised.
    pub open spec fn on_button_press(self, event: WindowId, state: u32, root_x: i16, root_y: i16) -> State {
        match resolve(self.frames, event) {
            None => self,
            Some((window, frame)) => {
                let drag = holds_all(state, self.config.drag_modifier) || event == frame;
                let started = if drag {
                    State { drag_start: Some(wire_point(root_x, root_y)), ..self }
                } else {
                    self
                };
                started.schedule(pressing_steps(window, frame, drag))
            },
        }
    }

    /// The pointer has moved over `event`. While a drag of a known window
    /// is on, the first button moves the window and the third resizes it,
    /// both reckoned from where the drag began.
    pub open spec fn on_motion_notify(self, event: WindowId, state: u32, root_x: i16, root_y: i16) -> State {
        match (resolve(self.frames, event), self.drag_start, self.drag_rect) {
            (Some((window, _)), Some(anchor), Some(rect)) => {
                let pointer = wire_point(root_x, root_y)@;
                if holds_all(state, BUTTON1) {
                    self.move_window(window, drag_move_target(rect@, anchor@, pointer).to_point())
                } else if holds_all(state, BUTTON3) {
                    self.resize_window(window, drag_resize_target(rect@, anchor@, pointer).to_rect())
                } else {
                    self
                }
            },
            _ => self,
        }
    }

    /// A button has been released: the drag is over.
    pub open spec fn on_button_release(self) -> State {
        State { drag_start: None, drag_rect: None, ..self }
    }

    /// The pointer has entered `event`. An event whose sequence is recorded
    /// is swallowed, and uses the record up. Otherwise, where the focus
    /// follows the pointer, the client of the entered frame takes it, or the
    /// window itself.
    pub open spec fn on_enter_notify(self, sequence: u16, response_type: u8, event: WindowId) -> State {
        let asked = State { ignored: without_covering(self.ignored, sequence, response_type as u32), ..self };
        if !any_covers(self.ignored, sequence, response_type as u32) && self.config.focus_follows_mouse {
            State {
                focused: Some(
                    match client_of(self.frames, event) {
                        Some(client) => client,
                        None => event,
                    },
                ),
                ..asked
            }
        } else {
            asked
        }
    }

    /// A client message has come. One of the manager's own type is sent
    /// straight back to the window it names.
    pub open spec fn on_client_message(self, window: WindowId, kind: Atom, data: MessageData) -> State {
        if kind == self.atoms.sync {
            self.schedule(
                seq![
                    Op::Unchecked(Request::SendMessage { window, kind: self.atoms.sync, data }),
                    Op::Unchecked(Request::Flush),
                ],
            )
        } else {
            self
        }
    }

    /// The state after the handler of `event` has done its part.
    pub open spec fn on_event(self, event: Event) -> State {
        match event {
            Event::ConfigureRequest { window, x, y, width, height, border_width, stack_mode } => self.on_configure_request(
                window,
                x,
                y,
                width,
                height,
                border_width,
                stack_mode,
            ),
            Event::MapRequest { sequence, window } => self.on_map_request(sequence, window),
            Event::UnmapNotify { sequence, event, window } => self.on_unmap_notify(sequence, event, window),
            Event::KeyPress { state, detail, root, root_x, root_y } => self.on_key_press(
                state,
                detail,
                root,
                root_x,
                root_y,
            ),
            Event::ButtonPress { event, state, root_x, root_y } => self.on_button_press(event, state, root_x, root_y),
            Event::MotionNotify { event, state, root_x, root_y } => self.on_motion_notify(
                event,
                state,
                root_x,
                root_y,
            ),
            Event::ButtonRelease => self.on_button_release(),
            Event::EnterNotify { sequence, response_type, event } => self.on_enter_notify(
                sequence,
                response_type,
                event,
            ),
            Event::ClientMessage { window, kind, data } => self.on_client_message(window, kind, data),
            _ => self,
        }
    }

    /// What the manager does with an event: work left over is dropped, the
    /// handler does its part, and the steps are started on. The screen is
    /// brought up to date at the end, however the steps went.
    pub open spec fn handle_event(self, event: Event) -> (State, Action) {
        self.fresh(true).on_event(event).run()
    }

    /// The state after a command has been taken in: the manager is to end,
    /// or the window with the focus is closed, by its client if the focus is
    /// on a frame.
    pub open spec fn on_command(self, command: Command) -> State {
        match command {
            Command::Exit => State { quit: Some(QuitReason::ExitCommand), ..self },
            Command::CloseWindow => match self.focused {
                Some(focused) => self.kill_window(
                    match client_of(self.frames, focused) {
                        Some(client) => client,
                        None => focused,
                    },
                ),
                None => self,
            },
        }
    }

    /// What the manager does with a command.
    pub open spec fn handle_command(self, command: Command) -> (State, Action) {
        self.fresh(false).on_command(command).run()
    }
}

impl WindowManager {
    /// Passes a client's wish for a new geometry on as it is.
    pub fn on_configure_request(
        &mut self,
        window: WindowId,
        x: i16,
        y: i16,
        width: u16,
        height: u16,
        border_width: u16,
        stack_mode: StackMode,
    )
        requires
            old(self).wf(),
        ensures
            final(self).wf(),
            final(self)@ == old(self)@.on_configure_request(window, x, y, width, height, border_width, stack_mode),
    {
        let values: ConfigureValues = ConfigureValues {
            x: Some(x as i32),
            y: Some(y as i32),
            width: Some(width as u32),
            height: Some(height as u32),
            border_width: Some(border_width as u32),
            stack_mode: Some(stack_mode),
        };
        let mut ops: Vec<Op> = Vec::new();
        match self.framed_clients.get_by_left(window) {
            Some(frame) => {
                ops.push(Op::Checked(Request::ConfigureWindow { window: frame, values }));
            },
            None => {},
        }
        ops.push(Op::Checked(Request::ConfigureWindow { window, values }));
        assert(ops@ =~= configuring_steps(self@.frames, window, values));
        self.schedule(ops);
    }

    /// Frames and shows a client that asks to be shown.
    pub fn on_map_request(&mut self, sequence: u16, window: WindowId)
        requires
            old(self).wf(),
        ensures
            final(self).wf(),
            final(self)@ == old(self)@.on_map_request(sequence, window),
    {
        self.ignored_sequences.add(sequence);
        let ops: Vec<Op> = vec![Op::Checked(Request::MapWindow { window }), Op::FocusFramed { window }];
        assert(ops@ =~= seq![Op::Checked(Request::MapWindow { window }), Op::FocusFramed { window }]);
        self.schedule(ops);
        self.frame_window(window, false);
    }

    /// Takes a window that has been hidden out of its frame.
    pub fn on_unmap_notify(&mut self, sequence: u16, event: WindowId, window: WindowId)
        requires
            old(self).wf(),
        ensures
            final(self).wf(),
            final(self)@ == old(self)@.on_unmap_notify(sequence, event, window),
    {
        if event == self.root {
            return ;
        }
        self.ignored_sequences.add_with_type(sequence, ENTER_NOTIFY);
        self.unframe_window(window);
    }

    /// Whether `chord` is pressed in an event with this state and key.
    pub fn chord_pressed(chord: Chord, state: u32, detail: u8) -> (pressed: bool)
        ensures
            pressed == chord_pressed(chord, state, detail),
    {
        state_contains(state, chord.modifiers) && detail == chord.key
    }

    /// Ends the manager on the quit chord, and closes the window under the
    /// pointer on the kill chord.
    pub fn on_key_press(&mut self, state: u32, detail: u8, root: WindowId, root_x: i16, root_y: i16)
        requires
            old(self).wf(),
        ensures
            final(self).wf(),
            final(self)@ == old(self)@.on_key_press(state, detail, root, root_x, root_y),
    {
        if Self::chord_pressed(self.config.quit_chord, state, detail) {
            self.quit_reason = Some(QuitReason::UserQuit);
            return ;
        }
        if Self::chord_pressed(self.config.kill_chord, state, detail) {
            self.kill_window_at_pos(root, Point::from_wire(root_x, root_y));
        }
    }

    /// A key has been released: nothing is done.
    pub fn on_key_release(&mut self)
        ensures
            *final(self) == *old(self),
    {
    }

    /// Starts a drag where one is asked for, gives the pressed window the
    /// focus and raises its frame.
    pub fn on_button_press(&mut self, event: WindowId, state: u32, root_x: i16, root_y: i16)
        requires
            old(self).wf(),
        ensures
            final(self).wf(),
            final(self)@ == old(self)@.on_button_press(event, state, root_x, root_y),
    {
        let (window, frame): (WindowId, WindowId) = match self.get_frame_and_window(event) {
            Some(pair) => pair,
            None => {
                return ;
            },
        };
        let drag: bool = state_contains(state, self.config.drag_modifier) || event == frame;
        let mut ops: Vec<Op> = Vec::new();
        if drag {
            self.drag_start = Some(Point::from_wire(root_x, root_y));
            ops.push(Op::Ask(Request::GetGeometry { window: frame }, Next::DragRect));
        }
        ops.push(Op::Focus { window });
        ops.push(Op::Checked(Request::ConfigureWindow { window: frame, values: ConfigureValues::raise() }));
        assert(ops@ =~= pressing_steps(window, frame, drag));
        self.schedule(ops);
    }

    /// Moves or resizes the dragged window as the pointer has moved since
    /// the drag began.
    pub fn on_motion_notify(&mut self, event: WindowId, state: u32, root_x: i16, root_y: i16)
        requires
            old(self).wf(),
        ensures
            final(self).wf(),
            final(self)@ == old(self)@.on_motion_notify(event, state, root_x, root_y),
    {
        let window: WindowId = match self.get_frame_and_window(event) {
            Some((window, _)) => window,
            None => {
                return ;
            },
        };
        let anchor: Point = match self.drag_start {
            Some(p) => p,
            None => {
                return ;
            },
        };
        let rect: Rect = match self.drag_start_frame_rect {
            Some(r) => r,
            None => {
                return ;
            },
        };
        let pointer: Point = Point::from_wire(root_x, root_y);
        proof {
            lemma_wire_drag_fits(rect@, anchor@, pointer@);
        }
        let delta: Point = pointer.delta_from(&anchor);
        if state_contains(state, BUTTON1) {
            let pos: Point = rect.origin().offset(&delta);
            self.move_window(window, pos);
        } else if state_contains(state, BUTTON3) {
            let grabbed: Quadrant = rect.quadrant(&anchor);
            let target: Rect = rect.resized(grabbed, &delta);
            self.resize_window(window, target);
        }
    }

    /// Ends the drag.
    pub fn on_button_release(&mut self)
        requires
            old(self).wf(),
        ensures
            final(self).wf(),
            final(self)@ == old(self)@.on_button_release(),
    {
        self.drag_start = None;
        self.drag_start_frame_rect = None;
    }

    /// Lets the focus follow the pointer, unless the event is one to
    /// swallow.
    pub fn on_enter_notify(&mut self, sequence: u16, response_type: u8, event: WindowId)
        requires
            old(self).wf(),
        ensures
            final(self).wf(),
            final(self)@ == old(self)@.on_enter_notify(sequence, response_type, event),
    {
        if self.ignored_sequences.is_ignored(sequence, response_type as u32) {
            return ;
        }
        if self.config.focus_follows_mouse {
            let target: WindowId = match self.framed_clients.get_by_right(event) {
                Some(client) => client,
                None => event,
            };
            self.focused_window = Some(target);
        }
    }

    /// The pointer has left a window: nothing is done.
    pub fn on_leave_notify(&mut self)
        ensures
            *final(self) == *old(self),
    {
    }

    /// A window wants painting: nothing is done.
    pub fn on_expose(&mut self)
        ensures
            *final(self) == *old(self),
    {
    }

    /// A window has got the input focus: nothing is done.
    pub fn on_focus_in(&mut self)
        ensures
            *final(self) == *old(self),
    {
    }

    /// A window has lost the input focus: nothing is done.
    pub fn on_focus_out(&mut self)
        ensures
            *final(self) == *old(self),
    {
    }

    /// A property has changed: nothing is done.
    pub fn on_property_notify(&mut self)
        ensures
            *final(self) == *old(self),
    {
    }

    /// Sends a message of the manager's own type straight back.
    pub fn on_client_message(&mut self, window: WindowId, kind: Atom, data: MessageData)
        requires
            old(self).wf(),
        ensures
            final(self).wf(),
            final(self)@ == old(self)@.on_client_message(window, kind, data),
    {
        if kind == self.atoms.sync {
            let ops: Vec<Op> = vec![
                Op::Unchecked(Request::SendMessage { window, kind: self.atoms.sync, data }),
                Op::Unchecked(Request::Flush),
            ];
            assert(ops@ =~= seq![
                Op::Unchecked(Request::SendMessage { window, kind: self@.atoms.sync, data }),
                Op::Unchecked(Request::Flush),
            ]);
            self.schedule(ops);
        }
    }

    /// Handles one event: picks its handler, lets it work, and hands out
    /// the first request that its steps need. The outcome of each request
    /// goes to [`WindowManager::resume`], until that says that the work is
    /// finished.
    pub fn handle_event(&mut self, event: Event) -> (action: Action)
        requires
            old(self).wf(),
        ensures
            final(self).wf(),
            final(self)@ == old(self)@.handle_event(event).0,
            action == old(self)@.handle_event(event).1,
    {
        self.fresh(true);
        match event {
            Event::ConfigureRequest { window, x, y, width, height, border_width, stack_mode } => {
                self.on_configure_request(window, x, y, width, height, border_width, stack_mode);
            },
            Event::MapRequest { sequence, window } => {
                self.on_map_request(sequence, window);
            },
            Event::UnmapNotify { sequence, event, window } => {
                self.on_unmap_notify(sequence, event, window);
            },
            Event::KeyPress { state, detail, root, root_x, root_y } => {
                self.on_key_press(state, detail, root, root_x, root_y);
            },
            Event::KeyRelease => {
                self.on_key_release();
            },
            Event::ButtonPress { event, state, root_x, root_y } => {
                self.on_button_press(event, state, root_x, root_y);
            },
            Event::ButtonRelease => {
                self.on_button_release();
            },
            Event::MotionNotify { event, state, root_x, root_y } => {
                self.on_motion_notify(event, state, root_x, root_y);
            },
            Event::EnterNotify { sequence, response_type, event } => {
                self.on_enter_notify(sequence, response_type, event);
            },
            Event::LeaveNotify => {
                self.on_leave_notify();
            },
            Event::Expose => {
                self.on_expose();
            },
            Event::FocusIn => {
                self.on_focus_in();
            },
            Event::FocusOut => {
                self.on_focus_out();
            },
            Event::PropertyNotify => {
                self.on_property_notify();
            },
            Event::ClientMessage { window, kind, data } => {
                self.on_client_message(window, kind, data);
            },
            Event::Other => {},
        }
        self.run()
    }

    /// Takes a command in.
    pub fn on_command(&mut self, command: Command)
        requires
            old(self).wf(),
        ensures
            final(self).wf(),
            final(self)@ == old(self)@.on_command(command),
    {
        match command {
            Command::Exit => {
                self.quit_reason = Some(QuitReason::ExitCommand);
            },
            Command::CloseWindow => {
                match self.focused_window {
                    Some(focused) => {
                        let target: WindowId = match self.framed_clients.get_by_right(focused) {
                            Some(client) => client,
                            None => focused,
                        };
                        self.kill_window(target);
                    },
                    None => {},
                }
            },
        }
    }

    /// Handles one command, as [`WindowManager::handle_event`] handles an
    /// event, but for the screen, which a command leaves as it is.
    pub fn handle_command(&mut self, command: Command) -> (action: Action)
        requires
            old(self).wf(),
        ensures
            final(self).wf(),
            final(self)@ == old(self)@.handle_command(command).0,
            action == old(self)@.handle_command(command).1,
    {
        self.fresh(false);
        self.on_command(command);
        self.run()
    }
}

} // verus!
