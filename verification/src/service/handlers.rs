//! What the API's handlers answer.

use vstd::prelude::*;
use crate::id::hyphenated;
use crate::job::JobBundle;
use crate::response::{new_failure, new_success, JsonResponse, Status};
use crate::service::messages::SubmittedJob;
use crate::text::concat5;

verus! {

/// The placeholder job the handlers answer with: named `name`, with no digest,
/// holding markdown.
pub open spec fn is_placeholder(b: JobBundle, name: Seq<char>) -> bool {
    &&& b.name@ == name
    &&& b.blob_digest@ == "no-digest"@
    &&& b.blob_content_type@ == "text/markdown"@
    &&& b.id.is_v4()
}

/// The answer to listing all jobs: one placeholder job named `my-doc`.
pub fn all_jobs() -> (r: JsonResponse<Vec<JobBundle>>)
    ensures
        r matches Ok(v) && v@.len() == 1 && is_placeholder(v@[0], "my-doc"@),
{
    let mut v = Vec::new();
    v.push(JobBundle::new("my-doc", "no-digest", "text/markdown"));
    new_success(v)
}

/// The answer to asking for one job: a placeholder job named `new job`,
/// whatever the id asked for.
pub fn job_by_id(uuid: &str) -> (r: JsonResponse<JobBundle>)
    ensures
        r matches Ok(b) && is_placeholder(b, "new job"@),
{
    new_success(JobBundle::new("new job", "no-digest", "text/markdown"))
}

/// The answer to a submitted job once its bundle is stored: the bundle's id
/// and digest.
pub fn submitted(bundle: JobBundle) -> (r: JsonResponse<SubmittedJob>)
    ensures
        r matches Ok(s) && s.id == bundle.id && s.digest@ == bundle.blob_digest@,
{
    new_success(SubmittedJob { id: bundle.id, digest: bundle.blob_digest })
}

/// The job the debug handler publishes: a placeholder job named `my-doc`.
pub fn debug_job() -> (b: JobBundle)
    ensures
        is_placeholder(b, "my-doc"@),
{
    JobBundle::new("my-doc", "no-digest", "text/markdown")
}

/// The answer of the debug handler once it has tried to publish `job`: the
/// job if it was published, else status 500 and the message
/// `Could not publish job id '<id>', error: \n'<error>'.`.
pub fn debug_publish_answer(job: JobBundle, published: Result<(), String>) -> (r: JsonResponse<JobBundle>)
    ensures
        match published {
            Ok(_) => r matches Ok(b) && b == job,
            Err(e) => r matches Err(f) && f.status.code == 500 && f.message@ == "Could not publish job id '"@
                + hyphenated(job.id.value) + "', error: \n'"@ + e@ + "'."@,
        },
{
    match published {
        Ok(_) => new_success(job),
        Err(e) => {
            let id = job.id.to_string();
            let msg = concat5("Could not publish job id '", id.as_str(), "', error: \n'", e.as_str(), "'.");
            new_failure(Status::internal_server_error(), msg)
        },
    }
}

} // verus!
