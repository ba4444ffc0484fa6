//! A game master protocol core: the action protocol that turns a model's JSON
//! replies into typed scene updates, the chat session that owns the
//! conversation history, and the channel that carries player input to it.

pub mod actions;
pub mod color;
pub mod json;
pub mod network;
pub mod prompt;
pub mod scene;
pub mod server;
