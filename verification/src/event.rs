//! The discrete UI events the input decoders emit.
//!
//! Key events carry the key's number; wheel events carry the rotation
//! state so a handler can scale by speed.  Dispatching the events to
//! handlers is the surrounding code's job: a handler is addressed by a
//! plain subscriber handle, never by an object address.

use vstd::prelude::*;

use crate::ec11::RotateState;

verus! {

/// One discrete input event.
#[derive(Eq, PartialEq, Copy, Clone, Debug, Structural)]
pub enum EventType {
    /// A short press of the numbered key.
    KeyShort(u32),
    /// A long press began.
    KeyLongStart(u32),
    /// A long press is still held.
    KeyLongIng(u32),
    /// A long press ended.
    KeyLongEnd(u32),
    /// A double click.
    KeyDouble(u32),
    /// The wheel turned one step backward.
    WheelBack,
    /// The wheel turned one step forward.
    WheelFront,
}

/// What a dispatched event hands its handler: the subscriber handle the
/// listener registered under, and the rotation state for wheel events.
#[derive(Eq, PartialEq, Copy, Clone, Debug, Structural)]
pub struct EventInfo {
    pub ptr: Option<usize>,
    pub rotate_state: Option<RotateState>,
}

} // verus!
