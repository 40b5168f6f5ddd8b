//! Messages exchanged with the API's clients.

use vstd::prelude::*;
use crate::id::Uuid;

verus! {

/// The answer to a submitted job: its id and the digest of its document.
#[derive(Debug)]
pub struct SubmittedJob {
    pub id: Uuid,
    pub digest: String,
}

/// What the client says about a job it submits.
#[derive(Debug)]
pub struct JobMetaData {
    pub name: String,
}

/// The file of an upload, as far as the service reads it.
#[derive(Debug)]
pub struct UploadedFile {
    /// The declared content type, if any.
    pub content_type: Option<String>,
    /// The size in bytes.
    pub len: u64,
}

/// A job upload: its metadata and its file.
#[derive(Debug)]
pub struct JobUpload {
    pub metadata: JobMetaData,
    pub file: UploadedFile,
}

} // verus!
