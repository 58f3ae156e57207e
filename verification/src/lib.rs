//! Streaming YAML-to-JSON conversion core.
//!
//! The library holds the logic of a command-line converter: the error-style
//! policy, the error printer, the conversion driver with its newline
//! bookkeeping, and the messages of the source dispatcher.  Output to the
//! process's standard streams is modelled as in-memory text owned by the
//! printer; the thin binary around the library performs the actual reads,
//! writes and process exits.

pub mod convert;
pub mod dispatch;
pub mod driver;
pub mod laws;
pub mod printer;
pub mod style;
