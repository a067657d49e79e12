//! Inbound events and the display-mode half of the outbound contract.

use vstd::prelude::*;

verus! {

/// Opaque reference to a previously sent display: the conversation and the
/// message hosting it. Passed through by value, never mutated by the engine.
#[derive(Clone, Copy, Debug, PartialEq, Eq, Structural)]
pub struct MessageRef {
    pub chat: i64,
    pub message: i64,
}

/// A classified inbound event.
#[derive(Clone, Debug, PartialEq, Eq)]
pub enum NavigationEvent {
    /// A user-issued top-level command.
    Command { name: String },
    /// A user press of an inline control, carrying the control's routing
    /// token and a reference to the message that hosted the control.
    ControlActivation { token: String, origin: MessageRef },
}

/// A raw gateway event, before classification. An activation may arrive with
/// its token or its originating message missing; such events are discarded.
#[derive(Clone, Debug, PartialEq, Eq)]
pub enum RawEvent {
    /// A plain text message.
    Text { text: String },
    /// A control activation as the gateway delivers it.
    Activation { token: Option<String>, origin: Option<MessageRef> },
}

/// How a decided screen reaches the user: as a fresh message or as an
/// in-place edit of the referenced one.
#[derive(Clone, Copy, Debug, PartialEq, Eq, Structural)]
pub enum DisplayMode {
    New,
    EditInPlace(MessageRef),
}

} // verus!
