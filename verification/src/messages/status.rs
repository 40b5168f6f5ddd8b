//! Messages sent on the status queue.

use vstd::prelude::*;
use crate::id::Uuid;
use crate::time::Timestamp;

verus! {

/// The outcome of a job.
#[derive(Copy, Clone, Debug, PartialEq, Eq)]
pub enum JobStatus {
    Sucess,
    Failure,
}

/// The report that a job has completed.
#[derive(Debug)]
pub struct JobCompletionMessage<T> {
    /// Id of the message.
    pub id: Uuid,
    /// Job id.
    pub job_id: Uuid,
    /// The timestamp of the completion.
    pub timestamp: Timestamp,
    /// The job status.
    pub status: JobStatus,
    /// The log of the conversion in UTF-8.
    pub log: T,
}

/// Severity of a job's log message.
#[derive(Copy, Clone, Debug, PartialEq, Eq)]
pub enum JobLogLevel {
    Info,
    Warning,
    Error,
}

/// A log line produced while a job runs.
#[derive(Debug)]
pub struct JobLogMessage<T> {
    /// Id of the message.
    pub id: Uuid,
    /// Job id.
    pub job_id: Uuid,
    /// The timestamp of the log message.
    pub timestamp: Timestamp,
    /// The message.
    pub message: T,
    /// The log level.
    pub level: JobLogLevel,
}

/// A message on the status queue: a log line or a completion report.
#[derive(Debug)]
pub enum StatusMessage<T> {
    Log(JobLogMessage<T>),
    Completion(JobCompletionMessage<T>),
}

impl<T> StatusMessage<T> {
    /// The id of the job the message is about.
    pub open spec fn spec_job_id(&self) -> Uuid {
        match self {
            StatusMessage::Log(l) => l.job_id,
            StatusMessage::Completion(c) => c.job_id,
        }
    }

    /// The id of the job the message is about.
    pub fn job_id(&self) -> (id: &Uuid)
        ensures
            *id == self.spec_job_id(),
    {
        match self {
            StatusMessage::Log(l) => &l.job_id,
            StatusMessage::Completion(c) => &c.job_id,
        }
    }
}

/// A log message for job `job_id`, with a fresh random message id, stamped now.
pub fn create_log<'a>(job_id: Uuid, message: &'a str, level: JobLogLevel) -> (m: StatusMessage<&'a str>)
    ensures
        m.spec_job_id() == job_id,
        m matches StatusMessage::Log(l) && {
            &&& l.job_id == job_id
            &&& l.message == message
            &&& l.level == level
            &&& l.id.is_v4()
            &&& l.timestamp.secs >= 0
            &&& l.timestamp.nanos < 1_000_000_000
        },
{
    StatusMessage::Log(
        JobLogMessage { id: Uuid::new_v4(), job_id, timestamp: Timestamp::now(), message, level },
    )
}

/// A completion message for job `job_id`, with a fresh random message id, stamped now.
pub fn create_completion<'a>(job_id: Uuid, status: JobStatus, log: &'a str) -> (m: StatusMessage<&'a str>)
    ensures
        m.spec_job_id() == job_id,
        m matches StatusMessage::Completion(c) && {
            &&& c.job_id == job_id
            &&& c.status == status
            &&& c.log == log
            &&& c.id.is_v4()
            &&& c.timestamp.secs >= 0
            &&& c.timestamp.nanos < 1_000_000_000
        },
{
    StatusMessage::Completion(
        JobCompletionMessage { id: Uuid::new_v4(), job_id, timestamp: Timestamp::now(), status, log },
    )
}

} // verus!
