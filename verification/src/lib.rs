//! Background job tracking: job records, the registry that stores them, the
//! runner that drives a job through its phases, and the client surface that
//! submits and polls jobs. Beside them stands a small helper that reports the
//! time of day.

pub mod job;
pub mod registry;
pub mod runner;
pub mod client;
pub mod time_and_nfl;

pub use client::ClientExample;
pub use job::{JobMutation, JobRecord, JobStatusEnum, JobUpdate, Transition};
pub use registry::{JobError, JobRegistry};
pub use runner::{JobRunner, RunnerAction};
pub use time_and_nfl::{get_time_and_nfl, TimeAndNfl};
