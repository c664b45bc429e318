//! Host-side orchestration core for a multi-tenant script-execution runtime.
//!
//! One process hosts many short-lived, isolated script execution contexts
//! ("workers"). This crate holds the verified decision logic of that host:
//! per-cycle CPU-time accounting for the execution driver, admission and
//! limit enforcement in the worker-pool supervisor, the connection-handoff
//! protocol with its half-close synchronization, and the role-based
//! bootstrap decisions (environment visibility, memory ceilings, network
//! permissions). The script engine itself, the module bundler and all I/O
//! are external collaborators driven from the unverified binary around
//! this library; they hand plain values in and take plain values back.

pub mod cert;
pub mod conn_sync;
pub mod driver;
pub mod env;
pub mod errors;
pub mod flags;
pub mod handoff;
pub mod memory;
pub mod metrics;
pub mod permissions;
pub mod pool;
pub mod runtime;
pub mod strutil;
pub mod supervise;
pub mod units;
pub mod worker;
