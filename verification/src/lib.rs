//! Building blocks for long-lived background workers: a backoff policy, the
//! decision logic of a job-processing loop and of bounded-retry connection
//! acquisition, and the byte and number helpers the workers share.
//!
//! Nothing here sleeps, polls or talks to a database. The loops are state
//! machines: the caller performs the action a machine asks for and reports
//! what happened as the next event.

pub mod backoff;
pub mod dal;
pub mod job_processor;
pub mod primitives;
pub mod utils;
