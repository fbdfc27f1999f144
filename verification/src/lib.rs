//! Desktop notifications for the Rio terminal, with the decisions behind
//! posting, watching and withdrawing a notification stated and proved.
//!
//! The library holds every decision the notifier makes; the program around
//! it performs the D-Bus conversation, the thread hand-off and the waiting.

pub mod channel;
pub mod content;
pub mod handle;
pub mod hooks;
pub mod identifier;
pub mod session;
pub mod session_laws;
pub mod shutdown;
pub mod toast;
