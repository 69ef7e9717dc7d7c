//! The transfer session orchestrator of a file transfer window: it starts a send or receive
//! process, reads the ticket from its output, tracks the session, and guards the panel switch.
pub mod controller;
pub mod laws;
pub mod state;
pub mod text;

pub use controller::{SendmeApp, SpawnRequest};
pub use state::{ClipboardOutcome, SessionError, SessionState, TransferMode};
