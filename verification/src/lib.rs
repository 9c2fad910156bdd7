//! A bridge between a message broker's asynchronous client and a host that
//! calls one operation at a time and pulls results synchronously.
//!
//! The library holds the decisions: what a command does with its input, how a
//! streaming session moves from one phase to the next, how a batch of
//! operations settles. The host performs the network calls and hands their
//! outcomes back as plain values.

pub mod error;
pub mod registry;
pub mod bridge;
pub mod session_laws;
pub mod outside;
pub mod values;
pub mod publish;
pub mod fanout;
pub mod present;
pub mod kv;
pub mod connect;
