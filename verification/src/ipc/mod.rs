//! The link to the Python services: wire messages, framing, and the
//! decisions taken on what the services answer.
pub mod bridge;
pub mod protocol;
