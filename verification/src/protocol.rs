//! The requests that the manager has the display server perform, the events
//! and replies that come back, and the numbers of the protocol that the
//! manager's decisions rest on.

use vstd::prelude::*;
use crate::registry::WindowId;
use crate::geometry::Rect;
use crate::geometry::Area;
use xcb::x;

verus! {

/// An interned name of the protocol.
pub type Atom = u32;

/// Where a window goes in the stack of its siblings.
#[derive(Clone, Copy, Debug, PartialEq, Eq, Structural)]
pub enum StackMode {
    Above,
    Below,
    TopIf,
    BottomIf,
    Opposite,
}

/// The payload of a client message, in one of the three layouts that the
/// protocol knows.
#[derive(Clone, Copy, Debug, PartialEq, Eq)]
pub enum MessageData {
    Bytes([u8; 20]),
    Shorts([u16; 10]),
    Words([u32; 5]),
}

/// The values of a configure request. A value that is absent is left as the
/// server has it.
#[derive(Clone, Copy, Debug, PartialEq, Eq, Structural)]
pub struct ConfigureValues {
    pub x: Option<i32>,
    pub y: Option<i32>,
    pub width: Option<u32>,
    pub height: Option<u32>,
    pub border_width: Option<u32>,
    pub stack_mode: Option<StackMode>,
}

/// What a geometry reply reports of a window.
#[derive(Clone, Copy, Debug, PartialEq, Eq, Structural)]
pub struct Geometry {
    pub x: i16,
    pub y: i16,
    pub width: u16,
    pub height: u16,
    pub border_width: u16,
}

/// What an attributes reply reports of a window, as far as the manager reads
/// it.
#[derive(Clone, Copy, Debug, PartialEq, Eq, Structural)]
pub struct Attributes {
    pub override_redirect: bool,
    pub viewable: bool,
}

/// A request to the display server.
#[derive(Clone, Copy, Debug, PartialEq, Eq)]
pub enum Request {
    /// Asks for the position and size of a window.
    GetGeometry { window: WindowId },
    /// Asks for the attributes of a window.
    GetWindowAttributes { window: WindowId },
    /// Asks for the children of a window, lowest in the stack first.
    QueryTree { window: WindowId },
    /// Asks for the atoms that a window lists in the given property.
    GetAtoms { window: WindowId, property: Atom },
    /// Asks for a fresh window identifier.
    GenerateId,
    /// Creates a frame: a window under `parent` that takes the structural
    /// requests and notifications of what is put into it.
    CreateFrame {
        frame: WindowId,
        parent: WindowId,
        x: i16,
        y: i16,
        width: u16,
        height: u16,
        border_width: u16,
    },
    /// Puts a window into the save set, so that it outlives the manager.
    AddToSaveSet { window: WindowId },
    /// Takes a window out of the save set.
    RemoveFromSaveSet { window: WindowId },
    /// Makes `window` a child of `parent`, at the given place in it.
    ReparentWindow { window: WindowId, parent: WindowId, x: i16, y: i16 },
    MapWindow { window: WindowId },
    UnmapWindow { window: WindowId },
    DestroyWindow { window: WindowId },
    /// Has the pointer buttons, pressed over `window` with `modifiers` held,
    /// reported to the manager.
    GrabButtons { window: WindowId, confine_to: WindowId, modifiers: u32 },
    /// Has the key `key`, pressed over `window`, reported to the manager.
    GrabKey { window: WindowId, key: u8 },
    ConfigureWindow { window: WindowId, values: ConfigureValues },
    /// Sends `window` a client message of type `kind`.
    SendMessage { window: WindowId, kind: Atom, data: MessageData },
    /// Ends the connection of the client that owns `resource`.
    KillClient { resource: u32 },
    /// Sends what has been issued so far.
    Flush,
    /// Brings the screen up to date.
    Render,
}

/// How long the one who performs a request waits.
#[derive(Clone, Copy, Debug, PartialEq, Eq, Structural)]
pub enum Wait {
    /// The request is issued and nothing is waited for.
    No,
    /// Until the server has accepted or rejected the request.
    ForVerdict,
    /// Until the server has sent the value asked for.
    ForReply,
}

/// The server's rejection of a request, or a reply that does not answer what
/// was asked.
#[derive(Clone, Copy, Debug, PartialEq, Eq, Structural)]
pub enum RequestError {
    /// The server rejected the request with this error code.
    Rejected { code: u8 },
    /// What came back is no answer to the question.
    UnexpectedReply,
}

/// What came of a request.
#[derive(Debug, PartialEq, Eq)]
pub enum Outcome {
    /// It was issued, and accepted where that was waited for.
    Done,
    /// The server rejected it.
    Failed { code: u8 },
    Geometry(Geometry),
    Attributes(Attributes),
    Id(WindowId),
    Children(Vec<WindowId>),
    Atoms(Vec<Atom>),
}

/// An event, as far as the manager reads it.
#[derive(Clone, Copy, Debug, PartialEq, Eq)]
pub enum Event {
    ConfigureRequest {
        window: WindowId,
        x: i16,
        y: i16,
        width: u16,
        height: u16,
        border_width: u16,
        stack_mode: StackMode,
    },
    MapRequest { sequence: u16, window: WindowId },
    UnmapNotify { sequence: u16, event: WindowId, window: WindowId },
    KeyPress { state: u32, detail: u8, root: WindowId, root_x: i16, root_y: i16 },
    KeyRelease,
    ButtonPress { event: WindowId, state: u32, root_x: i16, root_y: i16 },
    ButtonRelease,
    MotionNotify { event: WindowId, state: u32, root_x: i16, root_y: i16 },
    EnterNotify { sequence: u16, response_type: u8, event: WindowId },
    LeaveNotify,
    Expose,
    FocusIn,
    FocusOut,
    PropertyNotify,
    ClientMessage { window: WindowId, kind: Atom, data: MessageData },
    /// Any other event.
    Other,
}

/// A command from outside the event stream.
#[derive(Clone, Copy, Debug, PartialEq, Eq, Structural)]
pub enum Command {
    /// End the manager.
    Exit,
    /// Close the window that has the focus.
    CloseWindow,
}

impl Geometry {
    /// The rectangle that the reply describes.
    pub open spec fn area(self) -> Area {
        Area { x: self.x as int, y: self.y as int, w: self.width as int, h: self.height as int }
    }

    /// The rectangle that the reply describes.
    pub fn rect(&self) -> (r: Rect)
        ensures
            r@ == self.area(),
            r@.on_wire(),
    {
        Rect::from_wire(self.x, self.y, self.width, self.height)
    }
}

impl ConfigureValues {
    /// No value is given.
    pub open spec fn spec_none() -> ConfigureValues {
        ConfigureValues { x: None, y: None, width: None, height: None, border_width: None, stack_mode: None }
    }

    /// A new position, and nothing else.
    pub open spec fn spec_position(x: i32, y: i32) -> ConfigureValues {
        ConfigureValues { x: Some(x), y: Some(y), ..Self::spec_none() }
    }

    /// A new position and a new size.
    pub open spec fn spec_placement(r: Rect) -> ConfigureValues {
        ConfigureValues { x: Some(r.x), y: Some(r.y), width: Some(r.w), height: Some(r.h), ..Self::spec_none() }
    }

    /// To the top of the stack, and nothing else.
    pub open spec fn spec_raise() -> ConfigureValues {
        ConfigureValues { stack_mode: Some(StackMode::Above), ..Self::spec_none() }
    }

    /// A new position, and nothing else.
    pub fn position(x: i32, y: i32) -> (v: ConfigureValues)
        ensures
            v == Self::spec_position(x, y),
    {
        ConfigureValues { x: Some(x), y: Some(y), width: None, height: None, border_width: None, stack_mode: None }
    }

    /// A new position and a new size.
    pub fn placement(r: Rect) -> (v: ConfigureValues)
        ensures
            v == Self::spec_placement(r),
    {
        ConfigureValues {
            x: Some(r.x),
            y: Some(r.y),
            width: Some(r.w),
            height: Some(r.h),
            border_width: None,
            stack_mode: None,
        }
    }

    /// To the top of the stack, and nothing else.
    pub fn raise() -> (v: ConfigureValues)
        ensures
            v == Self::spec_raise(),
    {
        ConfigureValues {
            x: None,
            y: None,
            width: None,
            height: None,
            border_width: None,
            stack_mode: Some(StackMode::Above),
        }
    }
}

/// The bit of the pointer and modifier state that says Shift is held.
pub const SHIFT: u32 = 0x0001;

/// The bit that says Control is held.
pub const CONTROL: u32 = 0x0004;

/// The bit that says the first pointer button is held.
pub const BUTTON1: u32 = 0x0100;

/// The bit that says the third pointer button is held.
pub const BUTTON3: u32 = 0x0400;

/// Every bit of `wanted` is set in `state`.
pub open spec fn holds_all(state: u32, wanted: u32) -> bool {
    state & wanted == wanted
}

/// Whether every modifier and button of `wanted` is held in `state`.
///
/// Trusted: calls `xcb::x::KeyButMask::contains`, on the two bit sets taken
/// over bit for bit. The contract claims that it answers whether all the bits
/// of the second set are in the first.
#[verifier::external_body]
pub(crate) fn state_contains(state: u32, wanted: u32) -> (held: bool)
    ensures
        held == holds_all(state, wanted),
{
    x::KeyButMask::from_bits_retain(state).contains(x::KeyButMask::from_bits_retain(wanted))
}

/// The type number of an event that reports the pointer entering a window.
pub const ENTER_NOTIFY: u32 = 7;

} // verus!
