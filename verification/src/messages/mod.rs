//! Messages sent on the queues.

pub mod jobs;
pub mod status;
