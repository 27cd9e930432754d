//! Control-plane logic for an ephemeral compute cluster on a container
//! orchestration service: provisioning with bounded fan-out, readiness
//! polling, quorum waiting and idle shutdown.
//!
//! Every network call and sleep is performed by the caller; this crate decides
//! what to do next from the values those calls return.

pub mod endpoint;
pub mod error;
pub mod fargate;
pub mod lease;
pub mod polling;
pub mod provision;

pub use polling::{RegisteredExecutors, SchedulerState};
