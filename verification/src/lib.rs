//! Translator between a train simulator's native door controls and the
//! control semantics of a tri-state door panel.
//!
//! The library is the verified core: a message model (a tree of nodes with
//! typed attributes), the translator state, and a pure transition function
//! from `(previous state, inbound message)` to `(new state, command batch)`.
//! Connection handling, handshake and wire framing live outside the library.

pub mod commands;
pub mod laws;
pub mod msg;
pub mod state;
pub mod switch_names;
pub mod translate;

pub use commands::Command;
pub use msg::Attribute;
pub use msg::Node;
pub use state::State;
