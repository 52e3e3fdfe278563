//! Session control for a desktop dictation tool.
//!
//! The crate holds the decisions of a dictation session: the key-gesture
//! detector that tells an isolated tap of the designated key from a chord,
//! the line protocol of the recognition helper, the bookkeeping of the helper
//! process, the clipboard-mediated insertion, and the listening/idle session
//! that ties them together.  Nothing here touches a process, a clipboard or a
//! window: every function maps plain values to plain values and says in its
//! contract what comes out, so a host can perform the effects it is handed.

pub mod clipboard;
pub mod events;
pub mod gesture;
pub mod insertion;
pub mod menu;
pub mod monitor;
pub mod number;
pub mod protocol;
pub mod session;
pub mod settings;
pub mod speech;
pub mod text;
