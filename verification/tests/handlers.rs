use r3wm::manager::Action;
use r3wm::manager::Atoms;
use r3wm::manager::Chord;
use r3wm::manager::Config;
use r3wm::manager::QuitReason;
use r3wm::manager::WindowManager;
use r3wm::protocol::Command;
use r3wm::protocol::ConfigureValues;
use r3wm::protocol::Event;
use r3wm::protocol::Geometry;
use r3wm::protocol::MessageData;
use r3wm::protocol::Outcome;
use r3wm::protocol::Request;
use r3wm::protocol::RequestError;
use r3wm::protocol::StackMode;
use r3wm::protocol::Wait;
use r3wm::protocol::BUTTON1;
use r3wm::protocol::BUTTON3;
use r3wm::protocol::CONTROL;
use r3wm::protocol::ENTER_NOTIFY;
use r3wm::protocol::SHIFT;
use xcb::x;
use xcb::BaseEvent;

const ROOT: u32 = 1;

fn atoms() -> Atoms {
    Atoms { wm_protocols: 300, wm_delete_window: 301, sync: 302 }
}

fn manager(focus_follows_mouse: bool) -> WindowManager {
    WindowManager::new(Config::standard(focus_follows_mouse), atoms(), ROOT)
}

/// Answers every request with the next of `replies`, or with `Done` when they
/// have run out, and returns the requests and the result.
fn drive(
    wm: &mut WindowManager,
    first: Action,
    replies: Vec<Outcome>,
) -> (Vec<(Request, Wait)>, Result<(), RequestError>) {
    let mut log = Vec::new();
    let mut replies = replies.into_iter();
    let mut action = first;
    for _ in 0..1000 {
        match action {
            Action::Finished(result) => return (log, result),
            Action::Perform { request, wait } => {
                log.push((request, wait));
                action = wm.resume(replies.next().unwrap_or(Outcome::Done));
            }
        }
    }
    panic!("the manager does not finish");
}

fn requests(log: &[(Request, Wait)]) -> Vec<Request> {
    log.iter().map(|(r, _)| *r).collect()
}

fn geometry(x: i16, y: i16, width: u16, height: u16) -> Outcome {
    Outcome::Geometry(Geometry { x, y, width, height, border_width: 0 })
}

/// Puts `client` into `frame`, as a map request does.
fn framed(wm: &mut WindowManager, client: u32, frame: u32) {
    let first = wm.handle_event(Event::MapRequest { sequence: 0, window: client });
    let (_, result) = drive(wm, first, vec![geometry(0, 0, 30, 30), Outcome::Id(frame)]);
    assert_eq!(result, Ok(()));
    assert_eq!(wm.framed_clients.get_by_left(client), Some(frame));
}

#[test]
fn protocol_numbers_are_those_of_the_transport() {
    assert_eq!(SHIFT, x::KeyButMask::SHIFT.bits());
    assert_eq!(CONTROL, x::KeyButMask::CONTROL.bits());
    assert_eq!(BUTTON1, x::KeyButMask::BUTTON1.bits());
    assert_eq!(BUTTON3, x::KeyButMask::BUTTON3.bits());
    assert_eq!(ENTER_NOTIFY, x::EnterNotifyEvent::NUMBER);
    assert_eq!(r3wm::manager::CURRENT_TIME, x::CURRENT_TIME);
}

#[test]
fn standard_configuration() {
    let c = Config::standard(true);
    assert!(c.focus_follows_mouse);
    assert_eq!(c.drag_modifier, CONTROL);
    assert_eq!(c.kill_chord, Chord { modifiers: CONTROL, key: 0x18 });
    assert_eq!(c.quit_chord, Chord { modifiers: CONTROL | SHIFT, key: 0x18 });
    assert!(!Config::standard(false).focus_follows_mouse);
}

#[test]
fn chord_needs_every_modifier_and_the_key() {
    let chord = Chord { modifiers: CONTROL | SHIFT, key: 0x18 };
    assert!(WindowManager::chord_pressed(chord, CONTROL | SHIFT, 0x18));
    assert!(WindowManager::chord_pressed(chord, CONTROL | SHIFT | BUTTON1 | 0x8000_0000, 0x18));
    assert!(!WindowManager::chord_pressed(chord, CONTROL, 0x18));
    assert!(!WindowManager::chord_pressed(chord, SHIFT, 0x18));
    assert!(!WindowManager::chord_pressed(chord, 0, 0x18));
    assert!(!WindowManager::chord_pressed(chord, CONTROL | SHIFT, 0x19));
    // A chord without modifiers is pressed whatever is held.
    assert!(WindowManager::chord_pressed(Chord { modifiers: 0, key: 3 }, 0, 3));
    assert!(WindowManager::chord_pressed(Chord { modifiers: 0, key: 3 }, CONTROL, 3));
    // A modifier that the transport has no name for counts like any other.
    assert!(!WindowManager::chord_pressed(Chord { modifiers: 0x4000_0000, key: 3 }, CONTROL, 3));
    assert!(WindowManager::chord_pressed(Chord { modifiers: 0x4000_0000, key: 3 }, 0x4000_0001, 3));
}

#[test]
fn new_manager_knows_nothing() {
    let wm = manager(true);
    assert!(wm.is_idle());
    assert_eq!(wm.framed_clients.len(), 0);
    assert_eq!(wm.ignored_sequences.len(), 0);
    assert_eq!(wm.focused_window, None);
    assert_eq!(wm.drag_start, None);
    assert_eq!(wm.drag_start_frame_rect, None);
    assert_eq!(wm.quit_requested(), None);
    assert_eq!(wm.root, ROOT);
}

#[test]
fn quit_chord_ends_the_manager() {
    let mut wm = manager(true);
    let key = Event::KeyPress { state: CONTROL | SHIFT, detail: 0x18, root: ROOT, root_x: 5, root_y: 5 };
    let first = wm.handle_event(key);
    let (log, result) = drive(&mut wm, first, vec![]);
    assert_eq!(result, Ok(()));
    assert_eq!(requests(&log), vec![Request::Render]);
    assert_eq!(wm.quit_requested(), Some(QuitReason::UserQuit));
}

#[test]
fn exit_command_ends_the_manager() {
    let mut wm = manager(true);
    assert_eq!(wm.handle_command(Command::Exit), Action::Finished(Ok(())));
    assert_eq!(wm.quit_requested(), Some(QuitReason::ExitCommand));
}

#[test]
fn close_command_without_focus_does_nothing() {
    let mut wm = manager(true);
    assert_eq!(wm.handle_command(Command::CloseWindow), Action::Finished(Ok(())));
    assert_eq!(wm.quit_requested(), None);
}

#[test]
fn close_command_goes_to_the_focused_window_itself_if_unframed() {
    let mut wm = manager(true);
    wm.focused_window = Some(77);
    let first = wm.handle_command(Command::CloseWindow);
    let (log, result) = drive(&mut wm, first, vec![Outcome::Atoms(vec![5, 301, 9])]);
    assert_eq!(result, Ok(()));
    assert_eq!(
        log,
        vec![
            (Request::GetAtoms { window: 77, property: 300 }, Wait::ForReply),
            (
                Request::SendMessage { window: 77, kind: 300, data: MessageData::Words([301, 0, 0, 0, 0]) },
                Wait::No
            ),
            (Request::Flush, Wait::No),
        ]
    );
}

#[test]
fn close_protocol_is_looked_for_in_the_whole_list() {
    let wm = manager(true);
    assert!(wm.supports_wm_delete_window(&vec![301]));
    assert!(wm.supports_wm_delete_window(&vec![1, 2, 301]));
    assert!(wm.supports_wm_delete_window(&vec![301, 1, 2]));
    assert!(!wm.supports_wm_delete_window(&vec![]));
    assert!(!wm.supports_wm_delete_window(&vec![300, 302]));
}

#[test]
fn rejected_protocol_question_ends_the_close() {
    let mut wm = manager(true);
    wm.focused_window = Some(77);
    let first = wm.handle_command(Command::CloseWindow);
    let (log, result) = drive(&mut wm, first, vec![Outcome::Failed { code: 3 }]);
    assert_eq!(result, Err(RequestError::Rejected { code: 3 }));
    assert_eq!(log.len(), 1);
    assert!(wm.is_idle());
}

#[test]
fn rejected_kill_is_passed_over() {
    let mut wm = manager(true);
    wm.focused_window = Some(77);
    let first = wm.handle_command(Command::CloseWindow);
    let (log, result) = drive(&mut wm, first, vec![Outcome::Atoms(vec![]), Outcome::Failed { code: 2 }]);
    assert_eq!(result, Ok(()));
    assert_eq!(log[1], (Request::KillClient { resource: 77 }, Wait::ForVerdict));
    assert_eq!(log.len(), 2);
}

#[test]
fn reply_of_the_wrong_kind_ends_the_work() {
    let mut wm = manager(true);
    let first = wm.handle_event(Event::MapRequest { sequence: 1, window: 50 });
    assert_eq!(first, Action::Perform { request: Request::GetGeometry { window: 50 }, wait: Wait::ForReply });
    let second = wm.resume(Outcome::Id(4));
    let (log, result) = drive(&mut wm, second, vec![]);
    assert_eq!(result, Err(RequestError::UnexpectedReply));
    assert_eq!(requests(&log), vec![Request::Render]);
    assert_eq!(wm.framed_clients.len(), 0);

    let first = wm.handle_event(Event::MapRequest { sequence: 1, window: 50 });
    let (_, result) = drive(&mut wm, first, vec![Outcome::Done]);
    assert_eq!(result, Err(RequestError::UnexpectedReply));
}

#[test]
fn frame_with_the_identifier_of_its_client_is_refused() {
    let mut wm = manager(true);
    let first = wm.handle_event(Event::MapRequest { sequence: 1, window: 50 });
    let (log, result) = drive(&mut wm, first, vec![geometry(0, 0, 30, 30), Outcome::Id(50)]);
    assert_eq!(result, Err(RequestError::UnexpectedReply));
    assert_eq!(requests(&log), vec![Request::GetGeometry { window: 50 }, Request::GenerateId, Request::Render]);
    assert_eq!(wm.framed_clients.len(), 0);
}

#[test]
fn resume_with_nothing_asked_finishes() {
    let mut wm = manager(true);
    assert_eq!(wm.resume(Outcome::Done), Action::Finished(Ok(())));
    assert_eq!(wm.resume(Outcome::Failed { code: 1 }), Action::Finished(Ok(())));
    assert!(wm.is_idle());
}

#[test]
fn new_event_takes_the_place_of_unfinished_work() {
    let mut wm = manager(true);
    let first = wm.handle_event(Event::MapRequest { sequence: 1, window: 50 });
    assert_eq!(first, Action::Perform { request: Request::GetGeometry { window: 50 }, wait: Wait::ForReply });
    assert!(!wm.is_idle());
    let first = wm.handle_event(Event::Expose);
    assert_eq!(first, Action::Perform { request: Request::Render, wait: Wait::No });
    assert_eq!(wm.resume(Outcome::Done), Action::Finished(Ok(())));
    assert!(wm.is_idle());
    assert_eq!(wm.framed_clients.len(), 0);
}

#[test]
fn events_without_a_handler_only_update_the_screen() {
    let mut wm = manager(true);
    for e in [
        Event::KeyRelease,
        Event::LeaveNotify,
        Event::Expose,
        Event::FocusIn,
        Event::FocusOut,
        Event::PropertyNotify,
        Event::Other,
    ] {
        let first = wm.handle_event(e);
        let (log, result) = drive(&mut wm, first, vec![]);
        assert_eq!(result, Ok(()));
        assert_eq!(log, vec![(Request::Render, Wait::No)]);
        assert!(wm.is_idle());
    }
    assert_eq!(wm.focused_window, None);
    assert_eq!(wm.ignored_sequences.len(), 0);
}

#[test]
fn configure_request_is_passed_on_as_it_is() {
    let mut wm = manager(true);
    let e = Event::ConfigureRequest {
        window: 50,
        x: -7,
        y: 8,
        width: 0,
        height: 65535,
        border_width: 3,
        stack_mode: StackMode::Below,
    };
    let values = ConfigureValues {
        x: Some(-7),
        y: Some(8),
        width: Some(0),
        height: Some(65535),
        border_width: Some(3),
        stack_mode: Some(StackMode::Below),
    };
    let first = wm.handle_event(e);
    let (log, result) = drive(&mut wm, first, vec![]);
    assert_eq!(result, Ok(()));
    assert_eq!(
        log,
        vec![
            (Request::ConfigureWindow { window: 50, values }, Wait::ForVerdict),
            (Request::Render, Wait::No),
        ]
    );

    // Once the window has a frame, the frame is told first.
    framed(&mut wm, 50, 90);
    let first = wm.handle_event(e);
    let (log, result) = drive(&mut wm, first, vec![]);
    assert_eq!(result, Ok(()));
    assert_eq!(
        requests(&log),
        vec![
            Request::ConfigureWindow { window: 90, values },
            Request::ConfigureWindow { window: 50, values },
            Request::Render,
        ]
    );

    // A refusal for the frame ends the event.
    let first = wm.handle_event(e);
    let (log, result) = drive(&mut wm, first, vec![Outcome::Failed { code: 8 }]);
    assert_eq!(result, Err(RequestError::Rejected { code: 8 }));
    assert_eq!(requests(&log), vec![Request::ConfigureWindow { window: 90, values }, Request::Render]);
}

#[test]
fn values_for_a_configure_request() {
    let none = ConfigureValues { x: None, y: None, width: None, height: None, border_width: None, stack_mode: None };
    assert_eq!(ConfigureValues::position(3, -4), ConfigureValues { x: Some(3), y: Some(-4), ..none });
    assert_eq!(
        ConfigureValues::placement(r3wm::geometry::Rect::new(1, 2, 3, 4)),
        ConfigureValues { x: Some(1), y: Some(2), width: Some(3), height: Some(4), ..none }
    );
    assert_eq!(ConfigureValues::raise(), ConfigureValues { stack_mode: Some(StackMode::Above), ..none });
    assert_eq!(
        Geometry { x: -1, y: 2, width: 3, height: 4, border_width: 5 }.rect(),
        r3wm::geometry::Rect { x: -1, y: 2, w: 3, h: 4 }
    );
}

#[test]
fn sync_message_is_sent_straight_back() {
    let mut wm = manager(true);
    let data = MessageData::Bytes([9; 20]);
    let first = wm.handle_event(Event::ClientMessage { window: 50, kind: 302, data });
    let (log, result) = drive(&mut wm, first, vec![]);
    assert_eq!(result, Ok(()));
    assert_eq!(
        log,
        vec![
            (Request::SendMessage { window: 50, kind: 302, data }, Wait::No),
            (Request::Flush, Wait::No),
            (Request::Render, Wait::No),
        ]
    );

    // A message of another type is not answered, the close protocol's
    // included.
    for kind in [300, 301, 0] {
        let data = MessageData::Words([301, 0, 0, 0, 0]);
        let first = wm.handle_event(Event::ClientMessage { window: 50, kind, data });
        let (log, _) = drive(&mut wm, first, vec![]);
        assert_eq!(requests(&log), vec![Request::Render]);
    }
}

#[test]
fn focus_follows_the_pointer() {
    let mut wm = manager(true);
    framed(&mut wm, 50, 90);
    assert_eq!(wm.focused_window, Some(90));

    // Into an unframed window: that window.
    wm.handle_event(Event::EnterNotify { sequence: 5, response_type: 7, event: 60 });
    assert_eq!(wm.focused_window, Some(60));
    // Into a frame: its client.
    wm.handle_event(Event::EnterNotify { sequence: 6, response_type: 7, event: 90 });
    assert_eq!(wm.focused_window, Some(50));
    // Into a client: the client.
    wm.handle_event(Event::EnterNotify { sequence: 7, response_type: 7, event: 60 });
    wm.handle_event(Event::EnterNotify { sequence: 8, response_type: 7, event: 50 });
    assert_eq!(wm.focused_window, Some(50));
}

#[test]
fn focus_stays_where_it_does_not_follow_the_pointer() {
    let mut wm = manager(false);
    framed(&mut wm, 50, 90);
    wm.handle_event(Event::EnterNotify { sequence: 5, response_type: 7, event: 60 });
    assert_eq!(wm.focused_window, Some(90));
}

#[test]
fn unmap_reported_by_the_root_records_nothing() {
    let mut wm = manager(true);
    wm.handle_event(Event::UnmapNotify { sequence: 12, event: ROOT, window: 50 });
    assert_eq!(wm.ignored_sequences.len(), 0);
    wm.handle_event(Event::EnterNotify { sequence: 12, response_type: 7, event: 61 });
    assert_eq!(wm.focused_window, Some(61));
}

#[test]
fn enter_caused_by_an_unmap_is_swallowed_once() {
    let mut wm = manager(true);
    wm.handle_event(Event::UnmapNotify { sequence: 12, event: 90, window: 50 });
    assert_eq!(wm.ignored_sequences.len(), 1);

    // Another sequence is not covered.
    wm.handle_event(Event::EnterNotify { sequence: 11, response_type: 7, event: 60 });
    assert_eq!(wm.focused_window, Some(60));
    assert_eq!(wm.ignored_sequences.len(), 1);

    // The unmap's own sequence is, for an enter-notify event, once.
    wm.handle_event(Event::EnterNotify { sequence: 12, response_type: 7, event: 61 });
    assert_eq!(wm.focused_window, Some(60));
    assert_eq!(wm.ignored_sequences.len(), 0);
    wm.handle_event(Event::EnterNotify { sequence: 12, response_type: 7, event: 61 });
    assert_eq!(wm.focused_window, Some(61));
}

#[test]
fn enter_that_is_marked_as_sent_is_not_covered_by_an_unmap() {
    let mut wm = manager(true);
    wm.handle_event(Event::UnmapNotify { sequence: 12, event: 90, window: 50 });
    // The type of a sent event has the high bit set and is another number.
    wm.handle_event(Event::EnterNotify { sequence: 12, response_type: 7 | 0x80, event: 61 });
    assert_eq!(wm.focused_window, Some(61));
    assert_eq!(wm.ignored_sequences.len(), 1);
}

#[test]
fn enter_caused_by_a_map_request_is_swallowed_once() {
    let mut wm = manager(true);
    framed(&mut wm, 50, 90);
    let first = wm.handle_event(Event::MapRequest { sequence: 33, window: 51 });
    drive(&mut wm, first, vec![geometry(0, 0, 30, 30), Outcome::Id(91)]);
    assert_eq!(wm.focused_window, Some(91));
    // The record of a map request covers every type.
    wm.handle_event(Event::EnterNotify { sequence: 33, response_type: 200, event: 60 });
    assert_eq!(wm.focused_window, Some(91));
    wm.handle_event(Event::EnterNotify { sequence: 33, response_type: 200, event: 60 });
    assert_eq!(wm.focused_window, Some(60));
}

#[test]
fn resolving_a_window() {
    let mut wm = manager(true);
    framed(&mut wm, 50, 90);
    assert_eq!(wm.get_frame_and_window(50), Some((50, 90)));
    assert_eq!(wm.get_frame_and_window(90), Some((50, 90)));
    assert_eq!(wm.get_frame_and_window(60), None);
    assert_eq!(wm.get_frame_and_window(ROOT), None);
}

#[test]
fn framing_again_replaces_the_old_frame() {
    let mut wm = manager(true);
    framed(&mut wm, 50, 90);
    framed(&mut wm, 50, 91);
    assert_eq!(wm.framed_clients.len(), 1);
    assert_eq!(wm.framed_clients.get_by_right(90), None);
    assert_eq!(wm.framed_clients.get_by_right(91), Some(50));
}

#[test]
fn refusal_after_the_frame_is_shown_keeps_the_pair() {
    let mut wm = manager(true);
    let first = wm.handle_event(Event::MapRequest { sequence: 1, window: 50 });
    let replies = vec![
        geometry(0, 0, 30, 30),
        Outcome::Id(90),
        Outcome::Done,
        Outcome::Done,
        Outcome::Done,
        Outcome::Done,
        Outcome::Failed { code: 10 },
    ];
    let (log, result) = drive(&mut wm, first, replies);
    assert_eq!(result, Err(RequestError::Rejected { code: 10 }));
    assert!(matches!(log[6].0, Request::GrabButtons { .. }));
    assert_eq!(log[7].0, Request::Render);
    assert_eq!(log.len(), 8);
    assert_eq!(wm.framed_clients.get_by_left(50), Some(90));
    // The client was not shown, and the focus is where it was.
    assert_eq!(wm.focused_window, None);
}

#[test]
fn refusal_before_the_frame_is_shown_leaves_no_pair() {
    for failing in 2..6 {
        let mut wm = manager(true);
        let first = wm.handle_event(Event::MapRequest { sequence: 1, window: 50 });
        let mut replies = vec![geometry(0, 0, 30, 30), Outcome::Id(90)];
        while replies.len() < failing {
            replies.push(Outcome::Done);
        }
        replies.push(Outcome::Failed { code: 10 });
        let (log, result) = drive(&mut wm, first, replies);
        assert_eq!(result, Err(RequestError::Rejected { code: 10 }));
        assert_eq!(log.len(), failing + 2);
        assert_eq!(wm.framed_clients.len(), 0);
    }
}

#[test]
fn drag_state_is_kept_if_the_frame_cannot_be_measured() {
    let mut wm = manager(true);
    framed(&mut wm, 50, 90);
    let first = wm.handle_event(Event::ButtonPress { event: 50, state: CONTROL, root_x: 3, root_y: 4 });
    let (log, result) = drive(&mut wm, first, vec![Outcome::Failed { code: 9 }]);
    assert_eq!(result, Err(RequestError::Rejected { code: 9 }));
    assert_eq!(requests(&log), vec![Request::GetGeometry { window: 90 }, Request::Render]);
    assert_eq!(wm.drag_start, Some(r3wm::geometry::Point::new(3, 4)));
    assert_eq!(wm.drag_start_frame_rect, None);
    // Without the rectangle there is no drag to follow.
    let first =
        wm.handle_event(Event::MotionNotify { event: 50, state: CONTROL | BUTTON1, root_x: 30, root_y: 40 });
    let (log, _) = drive(&mut wm, first, vec![]);
    assert_eq!(requests(&log), vec![Request::Render]);
}

#[test]
fn drag_at_the_limits_of_the_coordinates() {
    let mut wm = manager(true);
    framed(&mut wm, 50, 90);
    let first =
        wm.handle_event(Event::ButtonPress { event: 90, state: 0, root_x: i16::MIN, root_y: i16::MIN });
    drive(&mut wm, first, vec![geometry(i16::MIN, i16::MIN, u16::MAX, u16::MAX)]);
    let first =
        wm.handle_event(Event::MotionNotify { event: 90, state: BUTTON3, root_x: i16::MAX, root_y: i16::MAX });
    let (log, result) = drive(&mut wm, first, vec![]);
    assert_eq!(result, Ok(()));
    let values = ConfigureValues::placement(r3wm::geometry::Rect { x: 32767, y: 32767, w: 1, h: 1 });
    assert_eq!(log[0].0, Request::ConfigureWindow { window: 90, values });

    let first =
        wm.handle_event(Event::MotionNotify { event: 90, state: BUTTON1, root_x: i16::MAX, root_y: i16::MAX });
    let (log, _) = drive(&mut wm, first, vec![]);
    let values = ConfigureValues::position(-32768 + 65535, -32768 + 65535);
    assert_eq!(log[0].0, Request::ConfigureWindow { window: 90, values });
}

#[test]
fn first_button_wins_over_third() {
    let mut wm = manager(true);
    framed(&mut wm, 50, 90);
    let first = wm.handle_event(Event::ButtonPress { event: 90, state: 0, root_x: 0, root_y: 0 });
    drive(&mut wm, first, vec![geometry(0, 0, 30, 30)]);
    let first =
        wm.handle_event(Event::MotionNotify { event: 90, state: BUTTON1 | BUTTON3, root_x: 4, root_y: 5 });
    let (log, _) = drive(&mut wm, first, vec![]);
    assert_eq!(
        requests(&log),
        vec![
            Request::ConfigureWindow { window: 90, values: ConfigureValues::position(4, 5) },
            Request::Render
        ]
    );
}
