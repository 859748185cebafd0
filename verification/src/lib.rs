//! Decision core of a multi-session pseudo-terminal manager.
//!
//! The crate holds the registry of live sessions and every rule that governs
//! them: which shell a new session launches, what a session is registered
//! under, what each command does to the registry and which bytes it sends to
//! which session, and when a session's output pump forwards or stops. The
//! operating-system work (allocating the terminal, spawning the shell, reading
//! and writing its streams) belongs to the embedding program, which performs
//! the actions these functions hand out and reports back what happened.

pub mod error;
pub mod laws;
pub mod pump;
pub mod registry;
pub mod session;
pub mod shell;
pub mod size;
pub mod text;

pub use error::CreationError;
pub use pump::{event_name, pump_step, Pump, PumpStep, ReadOutcome, CHUNK_SIZE};
pub use registry::Registry;
pub use session::{
    close_session, conclude_session, create_session, register_session, resize_session,
    write_to_session, Adjustment, Delivery, LaunchPlan, Rejected, Session,
};
pub use shell::{resolve_shell, HostOs};
pub use size::TerminalSize;
