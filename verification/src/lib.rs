//! The decision core of an API gateway: circuit breaking, key rotation, error
//! classification, provider fallback and health accounting.
//!
//! Everything in this crate is a function of plain values. Sockets, timers,
//! files and the environment belong to the program around it.

pub mod text;
pub mod clock;
pub mod circuit_breaker;
pub mod key_chain;
pub mod transport;
pub mod error;
pub mod taxonomy;
pub mod metrics;
pub mod config;
pub mod provider;
pub mod server;
pub mod proxy;
pub mod chain;
pub mod client;
