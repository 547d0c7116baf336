//! Handle-based, message-passing access to embedded database files.
//!
//! A context owns one executor thread; connections and prepared statements are
//! actors that run on it. This crate holds the parts of that service that can be
//! reasoned about: the values and messages, the decisions each actor takes for
//! each message, the row-streaming protocol, the checks that tie a handle to its
//! owner, and the naming of buckets and files on disk.

pub mod actor;
pub mod bindings;
pub mod channel;
pub mod codec;
pub mod connection;
pub mod engine;
pub mod error;
pub mod inspect;
pub mod messages;
pub mod naming;
pub mod statement;
pub mod stepping;
pub mod value;
pub mod wire;
