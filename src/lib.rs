//! Control-plane bridge between caller threads and the single worker thread that runs a
//! VM engine.
//!
//! - `action`: the commands the engine understands and what comes back.
//! - `channel`: the control channel and its round trip.
//! - `retry`: the bounded-attempt policy for attachments sent before the engine is ready.
//! - `dispatch`: drives an ordered list of actions, with that policy, to the first failure.
//! - `bootstrap`: the boot sequence that brings a VM to running.
//! - `protocol`: decodes administrative commands; `client` writes them.
//! - `args`: the command-line configuration; `json`: the JSON facts the codecs rely on.
pub mod action;
pub mod args;
pub mod bootstrap;
pub mod channel;
pub mod client;
pub mod dispatch;
pub mod json;
pub mod protocol;
pub mod retry;
