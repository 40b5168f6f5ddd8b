use vstd::prelude::*;
use crate::id::Uuid;

verus! {

/// A submitted job: its name, its identifier and the blob that holds its input.
#[derive(Debug)]
pub struct JobBundle {
    /// The name of the job.
    pub name: String,
    /// Job id.
    pub id: Uuid,
    /// The digest of the blob corresponding to this job.
    pub blob_digest: String,
    /// The content type of that blob.
    pub blob_content_type: String,
}

impl JobBundle {
    /// A bundle with a fresh random id and copies of the given texts.
    pub fn new(name: &str, blob_digest: &str, blob_content_type: &str) -> (b: JobBundle)
        ensures
            b.name@ == name@,
            b.blob_digest@ == blob_digest@,
            b.blob_content_type@ == blob_content_type@,
            b.id.is_v4(),
    {
        JobBundle {
            id: Uuid::new_v4(),
            name: name.to_owned(),
            blob_digest: blob_digest.to_owned(),
            blob_content_type: blob_content_type.to_owned(),
        }
    }
}

} // verus!
