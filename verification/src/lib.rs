//! Session bridge core: per-tab navigation state and its command/event
//! protocol.
//!
//! A tab holds a current URL, a title, and a navigation history with a
//! cursor. Commands (initialize, navigate, back, forward, refresh,
//! shutdown) mutate that state through a registry keyed by tab id and
//! produce an ordered list of lifecycle events. The rendering engine and
//! the wire transport are outside collaborators; only the state machine
//! lives here.

pub mod events;
pub mod laws;
pub mod processor;
pub mod registry;
pub mod servo_integration;
pub mod tab;
pub mod title;
