//! Message protocol layer of the application-blockchain interface (ABCI).
//!
//! A consensus engine drives a deterministic application through a closed set
//! of requests and responses. This crate defines those messages, the method
//! kinds that tell a dispatcher how to schedule them, the conversion between
//! the messages and their wire records, and the rules of snapshot
//! restoration during state sync.

pub mod block;
pub mod buffer;
pub mod error;
pub mod kind;
pub mod request;
pub mod response;
pub mod sync;
pub mod types;
pub mod wire;
