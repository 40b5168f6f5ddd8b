use vstd::prelude::*;
use crate::id::Uuid;

verus! {

/// A job as listed by the API.
#[derive(Debug)]
pub struct Job {
    pub id: String,
    pub document_title: String,
    pub document_size_in_bytes: i32,
    pub status: Status,
}

/// Where a job stands.
#[derive(Copy, Clone, Debug, PartialEq, Eq)]
pub enum Status {
    Ready,
    Processing,
    Done,
    Failed,
}

/// The answer to a submitted job: its id.
#[derive(Debug)]
pub struct SubmittedJob {
    pub id: Uuid,
}

/// The answer to listing all jobs: none.
pub fn all_jobs() -> (v: Vec<Job>)
    ensures
        v@.len() == 0,
{
    Vec::new()
}

} // verus!
