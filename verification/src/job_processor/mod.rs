//! The job-processing loop as a pair of state machines: one for the loop
//! that fetches and dispatches jobs, one for the wait on a dispatched job.
//! The caller performs each action the machine asks for and hands back what
//! happened as the next event.

pub mod laws;
pub mod outcome;
pub mod run;
pub mod wait;
