//! A download manager: queueing under a concurrency limit, retries with
//! exponential backoff, cancellation, progress and lifecycle events.

pub mod backend;
pub mod backoff;
pub mod concurrency_laws;
pub mod config;
pub mod context;
pub mod download;
pub mod error;
pub mod error_laws;
pub mod events;
pub mod external;
pub mod manager;
pub mod manager_laws;
pub mod permit_laws;
pub mod request;
pub mod request_laws;
pub mod scheduler;
pub mod scheduler_laws;
pub mod step_laws;
pub mod text;
pub mod turn_laws;
pub mod value_laws;
pub mod worker;
pub mod worker_laws;
