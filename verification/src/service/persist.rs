//! Turning an upload into a stored job bundle.

use vstd::prelude::*;
use crate::id::{hyphenated, is_random_v4, Uuid};
use crate::job::JobBundle;
use crate::path::{join, joined_path};
use crate::response::{self, Status};
use crate::text::{concat3, str_eq};

verus! {

/// The content type accepted for documents.
pub open spec fn markdown_type() -> Seq<char> {
    "text/markdown"@
}

/// Archive types that are recognised but not yet supported.
pub open spec fn is_archive_type(c: Seq<char>) -> bool {
    c == "application/x-zip"@ || c == "application/x-tar"@
}

/// A fresh temporary path for an upload inside `temp_dir`, named by a new
/// random identifier.
pub fn upload_temp_path(temp_dir: &str) -> (p: String)
    ensures
        exists|v: u128| is_random_v4(v) && p@ == #[trigger] joined_path(temp_dir@, hyphenated(v)),
{
    let id = Uuid::new_v4();
    let name = id.to_string();
    let p = join(temp_dir, name.as_str());
    assert(is_random_v4(id.value) && p@ == joined_path(temp_dir@, hyphenated(id.value)));
    p
}

/// Checks the content type of an upload. Markdown is accepted and its type
/// returned; zip and tar archives are refused as not yet supported, any other
/// type as not supported, and a missing type as not given, all with status
/// 400.
pub fn check_content_type(content_type: Option<&str>) -> (r: Result<String, response::Error>)
    ensures
        match content_type {
            None => r matches Err(e) && e.status.code == 400 && e.message@ == "No content type given."@,
            Some(c) => if c@ == markdown_type() {
                r matches Ok(t) && t@ == c@
            } else if is_archive_type(c@) {
                r matches Err(e) && e.status.code == 400 && e.message@ == "Content type '"@ + c@
                    + "' files are not yet supported."@
            } else {
                r matches Err(e) && e.status.code == 400 && e.message@ == "Content type '"@ + c@
                    + "' files are not supported."@
            },
        },
{
    match content_type {
        None => Err(response::Error::new(Status::bad_request(), String::from_str("No content type given."))),
        Some(c) => {
            if str_eq(c, "text/markdown") {
                Ok(String::from_str(c))
            } else if str_eq(c, "application/x-zip") || str_eq(c, "application/x-tar") {
                Err(
                    response::Error::new(
                        Status::bad_request(),
                        concat3("Content type '", c, "' files are not yet supported."),
                    ),
                )
            } else {
                Err(
                    response::Error::new(
                        Status::bad_request(),
                        concat3("Content type '", c, "' files are not supported."),
                    ),
                )
            }
        },
    }
}

/// The bundle of a stored upload: the job's name, the blob's digest and its
/// content type, under a fresh id.
pub fn bundle_for_stored(name: &str, digest: &str, content_type: &str) -> (b: JobBundle)
    ensures
        b.name@ == name@,
        b.blob_digest@ == digest@,
        b.blob_content_type@ == content_type@,
        b.id.is_v4(),
{
    JobBundle::new(name, digest, content_type)
}

} // verus!
