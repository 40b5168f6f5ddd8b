//! Where an uploaded document is persisted.

use vstd::prelude::*;
use crate::id::{hyphenated, Uuid};
use crate::text::concat3;

verus! {

/// A job with its document and stylesheet.
#[derive(Debug)]
pub struct JobBundle {
    pub id: Uuid,
    pub name: String,
    pub stylesheet: String,
}

/// The directory under which bundles are persisted when none is configured.
pub open spec fn default_prefix() -> Seq<char> {
    "/tmp/markdown-to-pdf"@
}

/// A new bundle with a fresh random id.
pub fn create_job_bundle(name: String, stylesheet: String) -> (b: JobBundle)
    ensures
        b.name@ == name@,
        b.stylesheet@ == stylesheet@,
        b.id.is_v4(),
{
    JobBundle { id: Uuid::new_v4(), name, stylesheet }
}

/// The directory of the bundle `id` under the configured prefix, or under
/// `/tmp/markdown-to-pdf` when none is configured.
pub fn bundle_dir(configured_prefix: Option<&str>, id: &Uuid) -> (d: String)
    ensures
        d@ == (match configured_prefix {
            Some(p) => p@,
            None => default_prefix(),
        }) + "/"@ + hyphenated(id.value),
{
    let text = id.to_string();
    match configured_prefix {
        Some(p) => concat3(p, "/", text.as_str()),
        None => concat3("/tmp/markdown-to-pdf", "/", text.as_str()),
    }
}

/// The path of the document inside a bundle directory.
pub fn document_path(bundle_dir: &str) -> (p: String)
    ensures
        p@ == bundle_dir@ + "/document.md"@,
{
    let mut p = String::from_str(bundle_dir);
    p.append("/document.md");
    p
}

} // verus!
