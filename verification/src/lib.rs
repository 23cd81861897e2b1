//! Session and action coordination for a desktop messaging client.
//!
//! The crate holds the decisions of the client: the sign-in state machine,
//! the cache that maps chat identifiers to peers, the shaping of message
//! batches, and the state of the presentation layer. Remote calls and
//! rendering are performed by the program around it, which hands each
//! outcome back as a plain value.

pub mod app;
pub mod cache;
pub mod history;
pub mod coordinator;
