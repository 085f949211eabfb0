//! Lifecycle management for an embedded Conflux node.

pub mod config;
pub mod error;
pub mod lifecycle;
pub mod protocol;
pub mod rendezvous;
pub mod secrets;
pub mod settings;
pub mod setup;
pub mod text;
pub mod worker;
