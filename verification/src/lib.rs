//! The core of a reparenting window manager.
//!
//! The manager takes the structural requests of client windows before the
//! display server honours them, puts each client into a frame of its own, and
//! from then on moves, resizes, focuses and closes the two together. It does
//! not talk to the server: it is handed one event at a time, answers with the
//! next request that it wants performed, and is told what came of it.
//!
//! - [`geometry`]: points, rectangles, and the arithmetic of a drag;
//! - [`sequences`]: the record of sequence numbers whose events are swallowed;
//! - [`registry`]: which client is in which frame;
//! - [`protocol`]: requests, replies and events as plain values;
//! - [`manager`]: the manager's state and the engine that takes its steps;
//! - [`windows`]: framing, unframing, moving, resizing, finding a window;
//! - [`handlers`]: what is done with each event and command;
//! - [`laws`]: what holds of all of this, proved.

use vstd::prelude::*;

pub mod geometry;
pub mod handlers;
pub mod laws;
pub mod manager;
pub mod protocol;
pub mod registry;
pub mod sequences;
pub mod windows;
