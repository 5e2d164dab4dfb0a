//! A state-synchronization and message-dispatch layer for a tree of UI
//! components.
//!
//! Each component owns one piece of state; the state changes only in
//! response to discrete messages delivered through channels, and after a
//! change the component may signal that the visible tree must be redrawn.
//! A central hub aggregates the redraw signals of the whole tree and
//! serializes the actual redraw passes.
//!
//! The machinery targets a single-threaded, cooperatively-scheduled host:
//! every consumption loop is advanced one message at a time by explicit
//! step functions, so mutual exclusion over a component's state holds by
//! construction and every transition carries a proved contract.

pub mod channel;
pub mod component;
pub mod fixtures;
pub mod hub;
pub mod messenger;
pub mod renderer;
