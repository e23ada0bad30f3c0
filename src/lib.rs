//! A bridge between a host-side streaming engine and a generator written in an
//! embedded guest runtime.
//!
//! The guest runtime itself (its interpreter lock, its event loop, the
//! conversion of values into and out of it) lives outside this crate. What is
//! here is the logic around it: the annotated responses that flow back to the
//! caller, the classification of per-item failures, the forwarding state
//! machine that decides what reaches the response stream and when it closes,
//! and the naming of the guest module loaded from a script path.

pub mod annotated;
pub mod error;
pub mod laws;
pub mod loader;
pub mod pump;

pub use annotated::Annotated;
pub use error::ResponseProcessingError;
pub use loader::{module_name_for_path, ConstructionError, ENTRY_POINT};
pub use pump::{pump_sequence, Forward, ForwardState, PumpReport, RESPONSE_CHANNEL_CAPACITY};
