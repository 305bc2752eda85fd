//! Execution and reporting core of a multi-host configuration
//! orchestration engine: a request/response protocol that decides, per
//! task and host, whether a resource must be created, modified or
//! removed; the task handle that mediates between module logic and the
//! connection, host bookkeeping and reporting subsystems; and the
//! counter aggregation that turns per-host outcomes into run-wide
//! statistics and a final exit status.

pub mod command;
pub mod connection;
pub mod context;
pub mod events;
pub mod handle;
pub mod hosts;
pub mod request;
pub mod response;
pub mod visitor;
