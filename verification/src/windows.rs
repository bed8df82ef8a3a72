//! What the manager does to a window: put it into a frame, take it out, move
//! it, resize it, find it under the pointer.
//!
//! Each operation lays its steps down in front of the steps that are already
//! waiting; [`WindowManager::run`] takes them.

use vstd::prelude::*;
use crate::geometry::Point;
use crate::geometry::Rect;
use crate::manager::moving_steps;
use crate::manager::resizing_steps;
use crate::manager::single;
use crate::manager::unframing_steps;
use crate::manager::Next;
use crate::manager::Op;
use crate::manager::State;
use crate::manager::WindowManager;
use crate::protocol::ConfigureValues;
use crate::protocol::Request;
use crate::registry::client_of;
use crate::registry::frame_of;
use crate::registry::WindowId;

verus! {

/// The client and the frame that `target` belongs to, whichever of the two it
/// is; nothing if it is neither.
pub open spec fn resolve(frames: Map<WindowId, WindowId>, target: WindowId) -> Option<(WindowId, WindowId)> {
    match frame_of(frames, target) {
        Some(frame) => Some((target, frame)),
        None => match client_of(frames, target) {
            Some(client) => Some((client, target)),
            None => None,
        },
    }
}

impl State {
    /// The state with the framing of `window` laid down. It begins with the
    /// question for the window's geometry; the replies decide how it goes
    /// on.
    pub open spec fn frame_window(self, window: WindowId, existed_before_wm: bool) -> State {
        self.schedule(
            seq![
                Op::Ask(
                    Request::GetGeometry { window },
                    Next::FrameGeometry { client: window, existed: existed_before_wm },
                ),
            ],
        )
    }

    /// The state with the unframing of `window` laid down, which is nothing
    /// if the window has no frame.
    pub open spec fn unframe_window(self, window: WindowId) -> State {
        match frame_of(self.frames, window) {
            Some(frame) => self.schedule(unframing_steps(window, frame, self.root)),
            None => self,
        }
    }

    /// The state with the move of `window` to `pos` laid down.
    pub open spec fn move_window(self, window: WindowId, pos: Point) -> State {
        self.schedule(moving_steps(self.frames, window, pos))
    }

    /// The state with the resize of `window` to `rect` laid down.
    pub open spec fn resize_window(self, window: WindowId, rect: Rect) -> State {
        self.schedule(resizing_steps(self.frames, window, rect))
    }

    /// The state with the closing of the child of `root` under `point` laid
    /// down: the children are asked for, and then looked at one by one.
    pub open spec fn kill_window_at_pos(self, root: WindowId, point: Point) -> State {
        self.schedule(seq![Op::Ask(Request::QueryTree { window: root }, Next::Children { point })])
    }
}

impl WindowManager {
    /// The client and the frame that `target` belongs to, whichever of the
    /// two it is.
    pub fn get_frame_and_window(&self, target: WindowId) -> (pair: Option<(WindowId, WindowId)>)
        requires
            self.wf(),
        ensures
            pair == resolve(self@.frames, target),
    {
        match self.framed_clients.get_by_left(target) {
            Some(frame) => Some((target, frame)),
            None => match self.framed_clients.get_by_right(target) {
                Some(client) => Some((client, target)),
                None => None,
            },
        }
    }

    /// Lays down the framing of `window`. A window that was there before the
    /// manager is framed only if it is viewable and does not ask to be left
    /// alone.
    pub fn frame_window(&mut self, window: WindowId, existed_before_wm: bool)
        requires
            old(self).wf(),
        ensures
            final(self).wf(),
            final(self)@ == old(self)@.frame_window(window, existed_before_wm),
    {
        self.schedule(
            single(
                Op::Ask(
                    Request::GetGeometry { window },
                    Next::FrameGeometry { client: window, existed: existed_before_wm },
                ),
            ),
        );
    }

    /// Lays down the unframing of `window`. Returns whether there is
    /// anything to do, that is, whether the window has a frame.
    pub fn unframe_window(&mut self, window: WindowId) -> (framed: bool)
        requires
            old(self).wf(),
        ensures
            final(self).wf(),
            framed == old(self)@.frames.dom().contains(window),
            final(self)@ == old(self)@.unframe_window(window),
    {
        match self.framed_clients.get_by_left(window) {
            Some(frame) => {
                let root: WindowId = self.root;
                let ops: Vec<Op> = vec![
                    Op::Tolerated(Request::UnmapWindow { window: frame }),
                    Op::Unchecked(Request::ReparentWindow { window, parent: root, x: 0, y: 0 }),
                    Op::Unchecked(Request::RemoveFromSaveSet { window }),
                    Op::Unchecked(Request::DestroyWindow { window: frame }),
                    Op::Unregister { client: window },
                    Op::Unchecked(Request::Flush),
                ];
                assert(ops@ =~= unframing_steps(window, frame, root));
                self.schedule(ops);
                true
            },
            None => false,
        }
    }

    /// Lays down the move of `window` to `pos`. A framed window is moved by
    /// its frame.
    pub fn move_window(&mut self, window: WindowId, pos: Point)
        requires
            old(self).wf(),
        ensures
            final(self).wf(),
            final(self)@ == old(self)@.move_window(window, pos),
    {
        let target: WindowId = match self.framed_clients.get_by_left(window) {
            Some(frame) => frame,
            None => window,
        };
        self.schedule(
            single(Op::Checked(Request::ConfigureWindow { window: target, values: ConfigureValues::position(pos.x, pos.y) })),
        );
    }

    /// Lays down the resize of `window` to `rect`. The frame of a framed
    /// window takes the place and the size, and the window fills it.
    pub fn resize_window(&mut self, window: WindowId, rect: Rect)
        requires
            old(self).wf(),
        ensures
            final(self).wf(),
            final(self)@ == old(self)@.resize_window(window, rect),
    {
        match self.framed_clients.get_by_left(window) {
            Some(frame) => {
                let inner: Rect = Rect { x: 0, y: 0, w: rect.w, h: rect.h };
                let ops: Vec<Op> = vec![
                    Op::Checked(Request::ConfigureWindow { window: frame, values: ConfigureValues::placement(rect) }),
                    Op::Checked(Request::ConfigureWindow { window, values: ConfigureValues::placement(inner) }),
                ];
                assert(ops@ =~= resizing_steps(self@.frames, window, rect));
                self.schedule(ops);
            },
            None => {
                self.schedule(
                    single(Op::Checked(Request::ConfigureWindow { window, values: ConfigureValues::placement(rect) })),
                );
            },
        }
    }

    /// Lays down the closing of the child of `root` under `point`: the
    /// children are asked for and looked at from the top of the stack down,
    /// each by the geometry that the server reports for it then, and the
    /// first that holds the point is closed.
    pub fn kill_window_at_pos(&mut self, root: WindowId, point: Point)
        requires
            old(self).wf(),
        ensures
            final(self).wf(),
            final(self)@ == old(self)@.kill_window_at_pos(root, point),
    {
        self.schedule(single(Op::Ask(Request::QueryTree { window: root }, Next::Children { point })));
    }
}

} // verus!
