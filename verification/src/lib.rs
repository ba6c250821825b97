//! Core logic of a sandboxed-instance orchestrator: port-range allocation,
//! the instance registry with its provisioning protocol, startup recovery
//! from the container runtime's state, status reconciliation, and
//! identifier resolution.

pub mod client_config;
pub mod config;
pub mod errors;
pub mod id_resolver;
pub mod instance;
pub mod lifecycle;
pub mod output;
pub mod ports;
pub mod runtime;
pub mod state;
pub mod strutil;
pub mod trusted;
