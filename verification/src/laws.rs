//! What holds of the manager whatever it is given: the laws that its handlers
//! and window operations obey, each proved from the definitions of
//! [`State`].

use vstd::prelude::*;
use crate::geometry::Area;
use crate::geometry::Rect;
use crate::manager::framing_steps;
use crate::manager::resizing_steps;
use crate::manager::Awaiting;
use crate::manager::result_of;
use crate::manager::Action;
use crate::manager::Op;
use crate::manager::State;
use crate::manager::CURRENT_TIME;
use crate::manager::FRAME_BORDER_WIDTH;
use crate::protocol::Atom;
use crate::protocol::Command;
use crate::protocol::ConfigureValues;
use crate::protocol::Event;
use crate::protocol::Geometry;
use crate::protocol::MessageData;
use crate::protocol::Outcome;
use crate::protocol::Request;
use crate::protocol::RequestError;
use crate::protocol::Wait;
use crate::registry::client_of;
use crate::registry::frame_of;
use crate::registry::is_pairing;
use crate::registry::lemma_remove_client;
use crate::registry::lemma_with_pair;
use crate::registry::with_pair;
use crate::registry::WindowId;
use crate::handlers::wire_point;
use crate::protocol::holds_all;
use crate::protocol::BUTTON1;
use crate::sequences::with_record;
use crate::sequences::Ignored;
use crate::windows::resolve;

verus! {

/// The request is handed out to be performed, with a wait for the server's
/// verdict.
pub open spec fn checked(request: Request) -> Action {
    Action::Perform { request, wait: Wait::ForVerdict }
}

/// The request is handed out to be issued, without a wait.
pub open spec fn unchecked(request: Request) -> Action {
    Action::Perform { request, wait: Wait::No }
}

/// The request is handed out as a question, with a wait for the reply.
pub open spec fn asked(request: Request) -> Action {
    Action::Perform { request, wait: Wait::ForReply }
}

/// A client that asks to be shown, and whose every request the server
/// accepts, ends up in the registry with the frame that was made for it, and
/// with no other; the frame holds no other client. The frame is shown before
/// the client is, and the pair is in the registry by the time the client is
/// shown. The frame has the border that all frames have, and takes the focus.
/// The sequence of the request is on record from the start.
pub proof fn lemma_map_request_frames_client(
    s: State,
    sequence: u16,
    window: WindowId,
    geometry: Geometry,
    frame: WindowId,
)
    requires
        s.wf(),
        frame != window,
    ensures
        ({
            let (s1, a1) = s.handle_event(Event::MapRequest { sequence, window });
            let (s2, a2) = s1.resume(Outcome::Geometry(geometry));
            let (s3, a3) = s2.resume(Outcome::Id(frame));
            let (s4, a4) = s3.resume(Outcome::Done);
            let (s5, a5) = s4.resume(Outcome::Done);
            let (s6, a6) = s5.resume(Outcome::Done);
            let (s7, a7) = s6.resume(Outcome::Done);
            let (s8, a8) = s7.resume(Outcome::Done);
            let (s9, a9) = s8.resume(Outcome::Done);
            let (s10, a10) = s9.resume(Outcome::Done);
            let (s11, a11) = s10.resume(Outcome::Done);
            &&& a1 == asked(Request::GetGeometry { window })
            &&& a2 == asked(Request::GenerateId)
            &&& a3 == checked(
                Request::CreateFrame {
                    frame,
                    parent: s.root,
                    x: geometry.x,
                    y: geometry.y,
                    width: geometry.width,
                    height: geometry.height,
                    border_width: FRAME_BORDER_WIDTH,
                },
            )
            &&& a4 == checked(Request::AddToSaveSet { window })
            &&& a5 == checked(Request::ReparentWindow { window, parent: frame, x: 0, y: 0 })
            &&& a6 == checked(Request::MapWindow { window: frame })
            &&& a7 == checked(
                Request::GrabButtons { window, confine_to: s.root, modifiers: s.config.drag_modifier },
            )
            &&& a8 == checked(Request::GrabKey { window, key: s.config.kill_chord.key })
            &&& a9 == checked(Request::MapWindow { window })
            &&& a10 == unchecked(Request::Render)
            &&& a11 == Action::Finished(Ok(()))
            &&& s1.ignored == with_record(s.ignored, Ignored { sequence, kind: None })
            &&& s11.ignored == s1.ignored
            &&& s6.frames == s.frames
            &&& s9.frames == with_pair(s.frames, window, frame)
            &&& s11.frames == with_pair(s.frames, window, frame)
            &&& frame_of(s11.frames, window) == Some(frame)
            &&& client_of(s11.frames, frame) == Some(window)
            &&& s11.focused == Some(frame)
            &&& s11.wf()
            &&& s11.idle()
        }),
{
    reveal_with_fuel(State::run, 4);
    lemma_with_pair(s.frames, window, frame);
    let (s1, a1) = s.handle_event(Event::MapRequest { sequence, window });
    let (s2, a2) = s1.resume(Outcome::Geometry(geometry));
    let (s3, a3) = s2.resume(Outcome::Id(frame));
    assert(a3 is Perform);
    let (s4, a4) = s3.resume(Outcome::Done);
    let (s5, a5) = s4.resume(Outcome::Done);
    let (s6, a6) = s5.resume(Outcome::Done);
    assert(a6 == checked(Request::MapWindow { window: frame }));
    let (s7, a7) = s6.resume(Outcome::Done);
    assert(s7.frames == with_pair(s.frames, window, frame));
    let (s8, a8) = s7.resume(Outcome::Done);
    let (s9, a9) = s8.resume(Outcome::Done);
    assert(a9 == checked(Request::MapWindow { window }));
    let (s10, a10) = s9.resume(Outcome::Done);
    assert(a10 == unchecked(Request::Render));
    let (s11, a11) = s10.resume(Outcome::Done);
    assert(s11.queue.len() == 0);
}

/// The steps that are left of a map request once the creation of the frame
/// has been handed out.
pub open spec fn steps_after_creation(s: State, window: WindowId, frame: WindowId, geometry: Geometry) -> Seq<Op> {
    framing_steps(window, frame, s.root, geometry, s.config).skip(1) + seq![
        Op::Checked(Request::MapWindow { window }),
        Op::FocusFramed { window },
    ]
}

/// However the server answers: once the creation of the frame has been
/// handed out, a map request that asks seven more things of the server, has
/// the screen brought up to date and then ends well has put the client into
/// the frame, and the frame has the focus.
pub proof fn lemma_framing_ends_well_only_framed(
    t: State,
    window: WindowId,
    frame: WindowId,
    geometry: Geometry,
    o3: Outcome,
    o4: Outcome,
    o5: Outcome,
    o6: Outcome,
    o7: Outcome,
    o8: Outcome,
    o9: Outcome,
    o10: Outcome,
)
    requires
        t.wf(),
        frame != window,
        t.awaiting == Awaiting::Verdict,
        t.render_due,
        t.failure is None,
        t.queue == steps_after_creation(t, window, frame, geometry),
    ensures
        ({
            let (s4, a4) = t.resume(o3);
            let (s5, a5) = s4.resume(o4);
            let (s6, a6) = s5.resume(o5);
            let (s7, a7) = s6.resume(o6);
            let (s8, a8) = s7.resume(o7);
            let (s9, a9) = s8.resume(o8);
            let (s10, a10) = s9.resume(o9);
            let (s11, a11) = s10.resume(o10);
            (a4 is Perform && a5 is Perform && a6 is Perform && a7 is Perform && a8 is Perform && a9 is Perform
                && a10 is Perform && a11 == Action::Finished(Ok(()))) ==> (s11.frames == with_pair(
                t.frames,
                window,
                frame,
            ) && s11.focused == Some(frame))
        }),
{
    reveal_with_fuel(State::run, 3);
    lemma_with_pair(t.frames, window, frame);
    let (s4, a4) = t.resume(o3);
    let (s5, a5) = s4.resume(o4);
    if o3 is Failed {
        assert(a4 == unchecked(Request::Render));
        assert(!(a5 is Perform));
    } else {
        let (s6, a6) = s5.resume(o5);
        if o4 is Failed {
            assert(a5 == unchecked(Request::Render));
            assert(!(a6 is Perform));
        } else {
            let (s7, a7) = s6.resume(o6);
            if o5 is Failed {
                assert(a6 == unchecked(Request::Render));
                assert(!(a7 is Perform));
            } else {
                let (s8, a8) = s7.resume(o7);
                if o6 is Failed {
                    assert(a7 == unchecked(Request::Render));
                    assert(!(a8 is Perform));
                } else {
                    assert(s7.frames == with_pair(t.frames, window, frame));
                    lemma_grabs_end_well_only_focused(s7, window, frame, o7, o8, o9, o10);
                }
            }
        }
    }
}

/// The end of a map request, from the grab of the buttons on.
proof fn lemma_grabs_end_well_only_focused(
    s7: State,
    window: WindowId,
    frame: WindowId,
    o7: Outcome,
    o8: Outcome,
    o9: Outcome,
    o10: Outcome,
)
    requires
        frame_of(s7.frames, window) == Some(frame),
        s7.awaiting == Awaiting::Verdict,
        s7.render_due,
        s7.failure is None,
        s7.queue.len() == 3,
        s7.queue[0] is Checked,
        s7.queue[1] is Checked,
        s7.queue[2] == (Op::FocusFramed { window }),
    ensures
        ({
            let (s8, a8) = s7.resume(o7);
            let (s9, a9) = s8.resume(o8);
            let (s10, a10) = s9.resume(o9);
            let (s11, a11) = s10.resume(o10);
            (a8 is Perform && a9 is Perform && a10 is Perform && a11 == Action::Finished(Ok(()))) ==> (s11.frames
                == s7.frames && s11.focused == Some(frame))
        }),
{
    reveal_with_fuel(State::run, 3);
    let (s8, a8) = s7.resume(o7);
    let (s9, a9) = s8.resume(o8);
    if o7 is Failed {
        assert(a8 == unchecked(Request::Render));
        assert(!(a9 is Perform));
    } else {
        let (s10, a10) = s9.resume(o9);
        if o8 is Failed {
            assert(a9 == unchecked(Request::Render));
            assert(!(a10 is Perform));
        } else {
            let (s11, a11) = s10.resume(o10);
            if o9 is Failed {
                assert(a10 == unchecked(Request::Render));
                assert(a11 is Finished && a11 != Action::Finished(Ok(())));
            }
        }
    }
}

/// However the server answers: a map request whose handling asks ten things
/// of the server and then ends well has put the client into the frame whose
/// identifier the server gave, and that frame has the focus.
pub proof fn lemma_mapped_client_is_framed(
    s: State,
    sequence: u16,
    window: WindowId,
    o1: Outcome,
    o2: Outcome,
    o3: Outcome,
    o4: Outcome,
    o5: Outcome,
    o6: Outcome,
    o7: Outcome,
    o8: Outcome,
    o9: Outcome,
    o10: Outcome,
)
    requires
        s.wf(),
    ensures
        ({
            let (s1, a1) = s.handle_event(Event::MapRequest { sequence, window });
            let (s2, a2) = s1.resume(o1);
            let (s3, a3) = s2.resume(o2);
            let (s4, a4) = s3.resume(o3);
            let (s5, a5) = s4.resume(o4);
            let (s6, a6) = s5.resume(o5);
            let (s7, a7) = s6.resume(o6);
            let (s8, a8) = s7.resume(o7);
            let (s9, a9) = s8.resume(o8);
            let (s10, a10) = s9.resume(o9);
            let (s11, a11) = s10.resume(o10);
            &&& a1 is Perform
            &&& (a2 is Perform && a3 is Perform && a4 is Perform && a5 is Perform && a6 is Perform && a7 is Perform
                && a8 is Perform && a9 is Perform && a10 is Perform && a11 == Action::Finished(Ok(())))
                ==> (o2 matches Outcome::Id(frame) && frame != window && s11.frames == with_pair(
                s.frames,
                window,
                frame,
            ) && frame_of(s11.frames, window) == Some(frame) && s11.focused == Some(frame))
        }),
{
    reveal_with_fuel(State::run, 2);
    let (s1, a1) = s.handle_event(Event::MapRequest { sequence, window });
    let (s2, a2) = s1.resume(o1);
    let (s3, a3) = s2.resume(o2);
    let (s4, a4) = s3.resume(o3);
    if !(o1 is Geometry) {
        assert(a2 == unchecked(Request::Render));
        assert(!(a3 is Perform));
    } else if !(o2 matches Outcome::Id(frame) && frame != window) {
        assert(a3 == unchecked(Request::Render));
        assert(!(a4 is Perform));
    } else {
        let frame = o2->Id_0;
        let geometry = o1->Geometry_0;
        lemma_with_pair(s.frames, window, frame);
        lemma_run_keeps_wf(s.fresh(true).on_event(Event::MapRequest { sequence, window }));
        lemma_resume_keeps_wf(s1, o1);
        lemma_resume_keeps_wf(s2, o2);
        assert(s3.queue =~= steps_after_creation(s3, window, frame, geometry));
        assert(s3.frames == s.frames);
        lemma_framing_ends_well_only_framed(s3, window, frame, geometry, o3, o4, o5, o6, o7, o8, o9, o10);
    }
}

/// A frame that the server refuses to create leaves the client unframed: the
/// registry is as it was, nothing more is asked of the server but to bring
/// the screen up to date, and the event ends with the server's error.
pub proof fn lemma_refused_frame_leaves_client_unframed(
    s: State,
    sequence: u16,
    window: WindowId,
    geometry: Geometry,
    frame: WindowId,
    code: u8,
)
    requires
        s.wf(),
        frame != window,
    ensures
        ({
            let (s1, a1) = s.handle_event(Event::MapRequest { sequence, window });
            let (s2, a2) = s1.resume(Outcome::Geometry(geometry));
            let (s3, a3) = s2.resume(Outcome::Id(frame));
            let (s4, a4) = s3.resume(Outcome::Failed { code });
            let (s5, a5) = s4.resume(Outcome::Done);
            &&& a3 is Perform
            &&& a4 == unchecked(Request::Render)
            &&& a5 == Action::Finished(Err(RequestError::Rejected { code }))
            &&& s5.frames == s.frames
            &&& s5.focused == s.focused
            &&& s5.idle()
        }),
{
    reveal_with_fuel(State::run, 3);
    let (s1, a1) = s.handle_event(Event::MapRequest { sequence, window });
    let (s2, a2) = s1.resume(Outcome::Geometry(geometry));
    let (s3, a3) = s2.resume(Outcome::Id(frame));
    assert(a3 is Perform);
    let (s4, a4) = s3.resume(Outcome::Failed { code });
    assert(s4.queue.len() == 0);
}

/// A framed client that is unframed is in the registry no longer, whatever
/// the server makes of the requests: each step is taken, none is waited on
/// but the first, and no verdict ends the work. Unframing it once more does
/// nothing. Where no other work was waiting, the work ends there.
pub proof fn lemma_unframe_takes_out_once(
    s: State,
    window: WindowId,
    frame: WindowId,
    o1: Outcome,
    o2: Outcome,
    o3: Outcome,
    o4: Outcome,
    o5: Outcome,
)
    requires
        s.wf(),
        frame_of(s.frames, window) == Some(frame),
    ensures
        ({
            let (s1, a1) = s.unframe_window(window).run();
            let (s2, a2) = s1.resume(o1);
            let (s3, a3) = s2.resume(o2);
            let (s4, a4) = s3.resume(o3);
            let (s5, a5) = s4.resume(o4);
            let (s6, a6) = s5.resume(o5);
            &&& a1 == checked(Request::UnmapWindow { window: frame })
            &&& a2 == unchecked(Request::ReparentWindow { window, parent: s.root, x: 0, y: 0 })
            &&& a3 == unchecked(Request::RemoveFromSaveSet { window })
            &&& a4 == unchecked(Request::DestroyWindow { window: frame })
            &&& a5 == unchecked(Request::Flush)
            &&& s5.frames == s.frames.remove(window)
            &&& frame_of(s5.frames, window) is None
            &&& is_pairing(s5.frames)
            &&& s5.unframe_window(window) == s5
            &&& s5.queue == s.queue
            &&& s.queue.len() == 0 && !s.render_due ==> a6 == Action::Finished(result_of(s.failure)) && s6.frames
                == s5.frames
        }),
{
    reveal_with_fuel(State::run, 3);
    lemma_remove_client(s.frames, window);
    let (s1, a1) = s.unframe_window(window).run();
    let (s2, a2) = s1.resume(o1);
    let (s3, a3) = s2.resume(o2);
    let (s4, a4) = s3.resume(o3);
    let (s5, a5) = s4.resume(o4);
    assert(s5.queue =~= s.queue);
    let (s6, a6) = s5.resume(o5);
}

/// Unframing a window that has no frame changes nothing and asks nothing of
/// the server.
pub proof fn lemma_unframe_unframed_is_nothing(s: State, window: WindowId)
    requires
        !s.frames.dom().contains(window),
    ensures
        s.unframe_window(window) == s,
{
}

/// The geometry that a window is left with when the server has honoured a
/// configure request for it: each value that the request gives replaces what
/// was held.
pub open spec fn configured(held: Area, values: ConfigureValues) -> Area {
    Area {
        x: match values.x {
            Some(x) => x as int,
            None => held.x,
        },
        y: match values.y {
            Some(y) => y as int,
            None => held.y,
        },
        w: match values.width {
            Some(w) => w as int,
            None => held.w,
        },
        h: match values.height {
            Some(h) => h as int,
            None => held.h,
        },
    }
}

/// The geometries that the server holds, each relative to the window's
/// parent, after it has honoured `request`.
pub open spec fn honoured(held: Map<WindowId, Area>, request: Request) -> Map<WindowId, Area> {
    match request {
        Request::ConfigureWindow { window, values } => if held.dom().contains(window) {
            held.insert(window, configured(held[window], values))
        } else {
            held
        },
        _ => held,
    }
}

/// The request that a step has the server perform, if it has one perform
/// any.
pub open spec fn request_of(op: Op) -> Option<Request> {
    match op {
        Op::Checked(request) => Some(request),
        Op::Tolerated(request) => Some(request),
        Op::Unchecked(request) => Some(request),
        Op::Ask(request, _) => Some(request),
        _ => None,
    }
}

/// The geometries that the server holds after it has honoured the requests
/// of `ops`, one after the other.
pub open spec fn honoured_all(held: Map<WindowId, Area>, ops: Seq<Op>) -> Map<WindowId, Area>
    decreases ops.len(),
{
    if ops.len() == 0 {
        held
    } else {
        let next = match request_of(ops[0]) {
            Some(request) => honoured(held, request),
            None => held,
        };
        honoured_all(next, ops.skip(1))
    }
}

/// Once the server has honoured the requests of a resize to `rect`, the frame
/// of a framed window is at `rect` and the window fills it from its top-left
/// corner; a window without a frame is at `rect` itself.
pub proof fn lemma_resize_round_trip(
    frames: Map<WindowId, WindowId>,
    held: Map<WindowId, Area>,
    window: WindowId,
    rect: Rect,
)
    requires
        is_pairing(frames),
        held.dom().contains(window),
        frame_of(frames, window) matches Some(frame) ==> held.dom().contains(frame),
    ensures
        ({
            let after = honoured_all(held, resizing_steps(frames, window, rect));
            match frame_of(frames, window) {
                Some(frame) => after[frame] == rect@ && after[window] == (Area {
                    x: 0,
                    y: 0,
                    w: rect.w as int,
                    h: rect.h as int,
                }),
                None => after[window] == rect@,
            }
        }),
{
    reveal_with_fuel(honoured_all, 3);
    let ops = resizing_steps(frames, window, rect);
    match frame_of(frames, window) {
        Some(frame) => {
            assert(frames.dom().contains(window));
            assert(window != frames[window] || !frames.dom().contains(window));
            assert(ops.skip(1)[0] == ops[1]);
            assert(ops.skip(1).skip(1).len() == 0);
        },
        None => {
            assert(ops.skip(1).len() == 0);
        },
    }
}

/// The requests of a resize reach the server in the order of its steps: for
/// a framed window first the frame's, then the window's own; a refusal of
/// the frame's ends the resize before the window is touched.
pub proof fn lemma_resize_requests(s: State, window: WindowId, frame: WindowId, rect: Rect, code: u8)
    requires
        s.wf(),
        frame_of(s.frames, window) == Some(frame),
    ensures
        ({
            let (s1, a1) = s.resize_window(window, rect).run();
            let (s2, a2) = s1.resume(Outcome::Done);
            let (r2, b2) = s1.resume(Outcome::Failed { code });
            &&& a1 == checked(
                Request::ConfigureWindow { window: frame, values: ConfigureValues::spec_placement(rect) },
            )
            &&& a2 == checked(
                Request::ConfigureWindow {
                    window,
                    values: ConfigureValues::spec_placement(Rect { x: 0, y: 0, w: rect.w, h: rect.h }),
                },
            )
            &&& r2.queue.len() == 0
            &&& b2 == if s.render_due {
                unchecked(Request::Render)
            } else {
                Action::Finished(Err(RequestError::Rejected { code }))
            }
        }),
{
    reveal_with_fuel(State::run, 2);
    let (s1, a1) = s.resize_window(window, rect).run();
    let (s2, a2) = s1.resume(Outcome::Done);
    let (r2, b2) = s1.resume(Outcome::Failed { code });
}

/// Closing the window with the focus, where its client does not take part
/// in the close protocol, ends the client's connection, and no message is
/// sent to it. Whatever the server makes of that, the command ends well.
pub proof fn lemma_close_ends_client_without_protocol(
    s: State,
    focused: WindowId,
    protocols: Vec<Atom>,
    verdict: Outcome,
)
    requires
        s.wf(),
        s.focused == Some(focused),
        !protocols@.contains(s.atoms.wm_delete_window),
    ensures
        ({
            let target = match client_of(s.frames, focused) {
                Some(client) => client,
                None => focused,
            };
            let (s1, a1) = s.handle_command(Command::CloseWindow);
            let (s2, a2) = s1.resume(Outcome::Atoms(protocols));
            let (s3, a3) = s2.resume(verdict);
            &&& a1 == asked(Request::GetAtoms { window: target, property: s.atoms.wm_protocols })
            &&& a2 == checked(Request::KillClient { resource: target })
            &&& a3 == Action::Finished(Ok(()))
            &&& s3.idle()
        }),
{
    reveal_with_fuel(State::run, 2);
    let (s1, a1) = s.handle_command(Command::CloseWindow);
    let (s2, a2) = s1.resume(Outcome::Atoms(protocols));
    assert(s2.queue.len() == 0);
}

/// Closing the window with the focus, where its client takes part in the
/// close protocol, sends the client the request to close and does no more:
/// the manager neither ends the client nor destroys anything.
pub proof fn lemma_close_asks_client_with_protocol(s: State, focused: WindowId, protocols: Vec<Atom>)
    requires
        s.wf(),
        s.focused == Some(focused),
        protocols@.contains(s.atoms.wm_delete_window),
    ensures
        ({
            let target = match client_of(s.frames, focused) {
                Some(client) => client,
                None => focused,
            };
            let (s1, a1) = s.handle_command(Command::CloseWindow);
            let (s2, a2) = s1.resume(Outcome::Atoms(protocols));
            let (s3, a3) = s2.resume(Outcome::Done);
            let (s4, a4) = s3.resume(Outcome::Done);
            &&& a1 == asked(Request::GetAtoms { window: target, property: s.atoms.wm_protocols })
            &&& a2 == unchecked(
                Request::SendMessage {
                    window: target,
                    kind: s.atoms.wm_protocols,
                    data: MessageData::Words([s.atoms.wm_delete_window, CURRENT_TIME, 0, 0, 0]),
                },
            )
            &&& a3 == unchecked(Request::Flush)
            &&& a4 == Action::Finished(Ok(()))
            &&& s4.frames == s.frames
            &&& s4.idle()
        }),
{
    reveal_with_fuel(State::run, 2);
    let (s1, a1) = s.handle_command(Command::CloseWindow);
    let (s2, a2) = s1.resume(Outcome::Atoms(protocols));
    let (s3, a3) = s2.resume(Outcome::Done);
    assert(s3.queue.len() == 0);
}

/// Running keeps a well-formed manager well formed, and leaves the record of
/// sequences, the drag and the wish to end alone.
pub proof fn lemma_run_keeps_wf(s: State)
    requires
        s.wf(),
    ensures
        s.run().0.wf(),
        s.run().0.ignored == s.ignored,
        s.run().0.drag_start == s.drag_start,
        s.run().0.drag_rect == s.drag_rect,
        s.run().0.quit == s.quit,
    decreases s.queue.len(),
{
    if s.queue.len() > 0 {
        let rest = State { queue: s.queue.remove(0), ..s };
        match s.queue[0] {
            Op::Register { client, frame } => {
                if client != frame {
                    lemma_with_pair(s.frames, client, frame);
                }
                lemma_run_keeps_wf(rest.apply(s.queue[0]));
            },
            Op::Unregister { client } => {
                lemma_remove_client(s.frames, client);
                lemma_run_keeps_wf(rest.apply(s.queue[0]));
            },
            Op::Focus { window } => {
                lemma_run_keeps_wf(rest.apply(s.queue[0]));
            },
            Op::FocusFramed { window } => {
                lemma_run_keeps_wf(rest.apply(s.queue[0]));
            },
            Op::Probe { point } => {
                if rest.candidates.len() == 0 {
                    lemma_run_keeps_wf(rest);
                }
            },
            _ => {},
        }
    }
}

/// Whatever is reported to a well-formed manager, it stays well formed: the
/// registry is a pairing, the record of sequences keeps within its bound,
/// and a drag's anchor and rectangle are such as events and replies carry.
pub proof fn lemma_resume_keeps_wf(s: State, outcome: Outcome)
    requires
        s.wf(),
    ensures
        s.receive(outcome).wf(),
        s.resume(outcome).0.wf(),
{
    lemma_run_keeps_wf(s.receive(outcome));
}

/// Whatever event or command reaches a well-formed manager, it stays well
/// formed.
pub proof fn lemma_handling_keeps_wf(s: State, event: Event, command: Command)
    requires
        s.wf(),
    ensures
        s.handle_event(event).0.wf(),
        s.handle_command(command).0.wf(),
{
    let fresh = s.fresh(true);
    match event {
        Event::EnterNotify { sequence, response_type, event } => {
            s.ignored.lemma_filter_len(|e: Ignored| !e.covers(sequence, response_type as u32));
        },
        _ => {},
    }
    lemma_run_keeps_wf(fresh.on_event(event));
    lemma_run_keeps_wf(s.fresh(false).on_command(command));
}

/// A drag from press to release: the press on a frame asks for the frame's
/// geometry and remembers it with the pointer's position; a motion with the
/// first button held then moves the frame to where it was, displaced as the
/// pointer is from where it was pressed; the release forgets the drag, and
/// a motion after it asks for nothing.
pub proof fn lemma_drag_moves_frame(
    s: State,
    window: WindowId,
    frame: WindowId,
    geometry: Geometry,
    press: (i16, i16),
    pointer: (i16, i16),
    state: u32,
)
    requires
        s.wf(),
        frame_of(s.frames, window) == Some(frame),
        holds_all(state, BUTTON1),
    ensures
        ({
            let (s1, a1) = s.handle_event(
                Event::ButtonPress { event: frame, state: 0, root_x: press.0, root_y: press.1 },
            );
            let (s2, a2) = s1.resume(Outcome::Geometry(geometry));
            let (s3, a3) = s2.resume(Outcome::Done);
            let (s4, a4) = s3.resume(Outcome::Done);
            let (s5, a5) = s4.handle_event(
                Event::MotionNotify { event: frame, state, root_x: pointer.0, root_y: pointer.1 },
            );
            let (s6, a6) = s5.resume(Outcome::Done);
            let (s7, a7) = s6.resume(Outcome::Done);
            let (s8, a8) = s7.handle_event(Event::ButtonRelease);
            let (s9, a9) = s8.resume(Outcome::Done);
            let (s10, a10) = s9.handle_event(
                Event::MotionNotify { event: frame, state, root_x: pointer.0, root_y: pointer.1 },
            );
            &&& a1 == asked(Request::GetGeometry { window: frame })
            &&& a2 == checked(
                Request::ConfigureWindow { window: frame, values: ConfigureValues::spec_raise() },
            )
            &&& a3 == unchecked(Request::Render)
            &&& a4 == Action::Finished(Ok(()))
            &&& s4.focused == Some(window)
            &&& s4.drag_start == Some(wire_point(press.0, press.1))
            &&& s4.drag_rect == Some(geometry.area().to_rect())
            &&& a5 == checked(
                Request::ConfigureWindow {
                    window: frame,
                    values: ConfigureValues::spec_position(
                        (geometry.x + (pointer.0 - press.0)) as i32,
                        (geometry.y + (pointer.1 - press.1)) as i32,
                    ),
                },
            )
            &&& a6 == unchecked(Request::Render)
            &&& a7 == Action::Finished(Ok(()))
            &&& a8 == unchecked(Request::Render)
            &&& s9.drag_start is None
            &&& s9.drag_rect is None
            &&& a10 == unchecked(Request::Render)
        }),
{
    reveal_with_fuel(State::run, 3);
    assert(s.frames.contains_pair(window, frame));
    assert(frame != window || !s.frames.dom().contains(frame)) by {
        assert(s.frames.dom().contains(window));
    }
    assert(!s.frames.dom().contains(frame)) by {
        if s.frames.dom().contains(frame) {
            assert(frame != s.frames[window] || !s.frames.dom().contains(frame));
        }
    }
    let chosen = choose|c: WindowId| #[trigger] s.frames.contains_pair(c, frame);
    assert(s.frames.contains_pair(chosen, frame));
    assert(chosen == window) by {
        if chosen != window {
            assert(s.frames[chosen] != s.frames[window]);
        }
    }
    assert(resolve(s.frames, frame) == Some((window, frame)));
    let (s1, a1) = s.handle_event(Event::ButtonPress { event: frame, state: 0, root_x: press.0, root_y: press.1 });
    assert(a1 == asked(Request::GetGeometry { window: frame }));
    let (s2, a2) = s1.resume(Outcome::Geometry(geometry));
    let (s3, a3) = s2.resume(Outcome::Done);
    let (s4, a4) = s3.resume(Outcome::Done);
    assert(s4.frames == s.frames);
    let (s5, a5) = s4.handle_event(Event::MotionNotify { event: frame, state, root_x: pointer.0, root_y: pointer.1 });
    let (s6, a6) = s5.resume(Outcome::Done);
    let (s7, a7) = s6.resume(Outcome::Done);
    let (s8, a8) = s7.handle_event(Event::ButtonRelease);
    let (s9, a9) = s8.resume(Outcome::Done);
    assert(s9.frames == s.frames);
}

} // verus!
