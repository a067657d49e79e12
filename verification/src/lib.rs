//! A conversational menu engine: it classifies inbound gateway events,
//! decides the next screen of a small navigation state machine, and renders
//! each screen's text and inline controls from an immutable content registry.
//! The engine is pure; a thin host binary performs the gateway I/O.

pub mod dispatch;
pub mod event;
pub mod nav;
pub mod registry;
pub mod render;
