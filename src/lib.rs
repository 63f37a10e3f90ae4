//! Calls functions of a foreign, dynamically typed runtime by name, and
//! keeps the values they return behind opaque, generation-tagged handles.
//!
//! - `store`: the handle store.
//! - `dispatch`: the session, its function cache, and the steps of a call.
//! - `protocol`: commands and responses, and the steps of a command.
//! - `text`: decimal numbers and joined strings.
//! - `slots`: the slot map that backs the store.

pub mod slots;
pub mod store;
pub mod text;
pub mod dispatch;
pub mod protocol;
