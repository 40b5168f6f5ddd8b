//! Messages sent on the jobs queue.

use vstd::prelude::*;
use crate::id::Uuid;
use crate::job::JobBundle;

verus! {

/// A job to be converted, as published on the jobs queue.
#[derive(Debug)]
pub struct JobMessage {
    /// The name of the job.
    pub name: String,
    /// Job id.
    pub id: Uuid,
    /// The blob id corresponding to this job.
    pub blob_digest: String,
    pub blob_content_type: String,
}

impl JobMessage {
    /// A message with a fresh random id and the given fields.
    pub fn new(name: String, blob_digest: String, blob_content_type: String) -> (m: JobMessage)
        ensures
            m.name@ == name@,
            m.blob_digest@ == blob_digest@,
            m.blob_content_type@ == blob_content_type@,
            m.id.is_v4(),
    {
        JobMessage { id: Uuid::new_v4(), name, blob_digest, blob_content_type }
    }

    /// The message for a bundle: the same job, with its id, name, digest and
    /// content type.
    pub fn from_bundle(value: JobBundle) -> (m: JobMessage)
        ensures
            m.id == value.id,
            m.name@ == value.name@,
            m.blob_digest@ == value.blob_digest@,
            m.blob_content_type@ == value.blob_content_type@,
    {
        JobMessage {
            id: value.id,
            name: value.name,
            blob_digest: value.blob_digest,
            blob_content_type: value.blob_content_type,
        }
    }

    /// As [`JobMessage::from_bundle`], copying the texts out of a borrowed bundle.
    pub fn from_bundle_ref(value: &JobBundle) -> (m: JobMessage)
        ensures
            m.id == value.id,
            m.name@ == value.name@,
            m.blob_digest@ == value.blob_digest@,
            m.blob_content_type@ == value.blob_content_type@,
    {
        JobMessage {
            id: value.id,
            name: value.name.clone(),
            blob_digest: value.blob_digest.clone(),
            blob_content_type: value.blob_content_type.clone(),
        }
    }
}

} // verus!
