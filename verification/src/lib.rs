//! Host-side core of a sandboxed guest/host game bridge.
//!
//! A host application runs a per-frame control loop and delegates game logic
//! to a sandboxed guest module behind a fixed interface contract.  The guest
//! exposes pure update functions the host calls once per tick; the host
//! exposes a small effect API the guest may call back into during a tick.
//! This crate holds everything of that bridge that is plain logic: the
//! contract value types, the effect logs recorded during guest calls, the
//! name-to-handle registry with hierarchical cascade removal, and the tick
//! orchestration with its per-step fallback rules.  The sandbox runtime, the
//! scene graph and input polling are external collaborators that a thin
//! driver wires up around this crate.

pub mod apply;
pub mod contract;
pub mod effects;
pub mod laws;
pub mod registry;
pub mod tick;
