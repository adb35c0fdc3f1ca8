//! Decision logic of a small parameter-server training system: the
//! coordinator's stage machine, the worker and parameter-server proxies'
//! command handling, gradient accumulation and a pool of shared workers.
//! Channels, clocks, random numbers and floating-point arithmetic live
//! with the caller; this crate holds what decides.

pub mod protocol;
pub mod training_coordinator;
pub mod accumulator;
pub mod worker_pool;
pub mod worker_proxy;
pub mod param_server_proxy;
pub mod worker;
pub mod param_server;
