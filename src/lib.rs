//! Relays a streamed chat answer from a model server: frames newline-delimited
//! records out of arbitrary byte fragments, tracks per-session cancel flags, and
//! decides which notifications go out and how each operation ends.

pub mod frame;
pub mod messages;
pub mod registry;
pub mod relay;
pub mod server;
pub mod store;
