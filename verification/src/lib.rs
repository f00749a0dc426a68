//! The core of a message gateway that sits between a transport, which
//! delivers text and binary messages from many clients, and one shared
//! command processor.
//!
//! - `codec` cuts a binary message into a JSON command and a payload.
//! - `handler` is the endpoint of one connection: it decides, for each
//!   message, whether a command is dispatched or an error is reported.
//! - `service` is the registry: it hands out client identities, forgets
//!   clients that are gone, and routes replies by identity.
//! - `text` writes numbers and bytes into the descriptions of failures.
//!
//! The core moves no bytes itself. The command type, the capability to reply
//! to a connection and the dispatch channel belong to the caller: a command
//! is any type that the caller's parser returns, a capability is any type
//! that can be cloned, and what must be sent is handed to the caller's
//! closure or returned as a decision.

pub mod codec;
pub mod handler;
pub mod service;
pub mod text;
