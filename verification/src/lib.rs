//! A bridge between three parties that must never block one another: a native
//! window with its render surface, a scripting host that runs callbacks, and
//! a background side that does long-running work.
//!
//! - [`ipc_req`] normalizes a request of the renderer and dispatches it to
//!   the scripting callback; what comes back is at most one instruction.
//! - [`event_loop`] is the native loop as a state machine: it alone decides
//!   what happens to the render surface.
//! - [`bridge`] is the context that the entry points share.
//! - [`registry`] and [`channel`] hold the channels between the scripting
//!   host and the background side and hand out their ends.
//! - [`consumer`] lets the background consumer start once and tells it what
//!   to do with what it receives.
//! - [`message`], [`json`], [`headers`], [`entries`] and [`text`] are the
//!   values that travel and the rules by which they are normalized and
//!   written.
//! - [`error`] lists what can go wrong and how far each failure travels.

pub mod bridge;
pub mod channel;
pub mod consumer;
pub mod entries;
pub mod error;
pub mod event_loop;
pub mod headers;
pub mod ipc_req;
pub mod json;
pub mod message;
pub mod registry;
pub mod text;

use vstd::prelude::*;

verus! {

/// An instruction posted from any thread to the native loop.
///
/// Further kinds of instruction may be added; a consumer outside this crate
/// has to pass over the kinds that it does not know.
#[derive(Debug, Clone, PartialEq, Eq)]
#[non_exhaustive]
pub enum RuntimeMessage {
    /// Run the script against the render surface.
    Eval(String),
}

} // verus!
