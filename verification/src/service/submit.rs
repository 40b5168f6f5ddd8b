//! Submitting a job, step by step: the upload is persisted to a temporary
//! file, its content type checked, the file stored as a blob, the job put on
//! the jobs queue, and the client answered.

use vstd::prelude::*;
use crate::id::{hyphenated, is_random_v4, Uuid};
use crate::messages::jobs::JobMessage;
use crate::path::joined_path;
use crate::response::{self, JsonResponse, Status};
use crate::service::handlers::submitted;
use crate::service::messages::SubmittedJob;
use crate::service::persist::{bundle_for_stored, check_content_type, is_archive_type, markdown_type, upload_temp_path};
use crate::text::concat5;

verus! {

/// Where a submission stands.
#[derive(Copy, Clone, Debug, PartialEq, Eq)]
pub enum SubmitStage {
    /// Persist the upload to the temporary file.
    Persist,
    /// Store the temporary file as a blob.
    Store,
    /// Put the job on the jobs queue.
    Publish,
    /// Answer the client with the job.
    Finished,
    /// Answer the client with the error.
    Failed,
}

/// How the last step of a submission went.
#[derive(Debug)]
pub enum SubmitEvent {
    Persisted,
    /// Persisting failed with this input/output error text.
    PersistFailed(String),
    /// The blob was stored under this digest.
    Stored(String),
    /// Storing failed with this input/output error text.
    StoreFailed(String),
    Published,
    /// Publishing failed with this error text.
    PublishFailed(String),
}

/// A submit event as the contracts see it.
pub enum SubmitEventView {
    Persisted,
    PersistFailed(Seq<char>),
    Stored(Seq<char>),
    StoreFailed(Seq<char>),
    Published,
    PublishFailed(Seq<char>),
}

impl View for SubmitEvent {
    type V = SubmitEventView;

    open spec fn view(&self) -> SubmitEventView {
        match self {
            SubmitEvent::Persisted => SubmitEventView::Persisted,
            SubmitEvent::PersistFailed(m) => SubmitEventView::PersistFailed(m@),
            SubmitEvent::Stored(d) => SubmitEventView::Stored(d@),
            SubmitEvent::StoreFailed(m) => SubmitEventView::StoreFailed(m@),
            SubmitEvent::Published => SubmitEventView::Published,
            SubmitEvent::PublishFailed(m) => SubmitEventView::PublishFailed(m@),
        }
    }
}

/// The state of a submission, as the contracts see it.
pub struct SubmitState {
    /// The job's name.
    pub name: Seq<char>,
    /// The upload's declared content type.
    pub content_type: Option<Seq<char>>,
    /// The temporary file the upload is persisted to.
    pub tmp: Seq<char>,
    pub stage: SubmitStage,
    /// The accepted content type, once checked.
    pub blob_type: Seq<char>,
    /// The blob's digest, once stored.
    pub digest: Seq<char>,
    /// The job's id, once its blob is stored.
    pub id: Uuid,
    /// The status and message of the error answer, once failed.
    pub error_status: u16,
    pub error_message: Seq<char>,
}

/// What the caller must do next.
#[derive(Debug)]
pub enum SubmitAction {
    PersistUpload { path: String },
    StoreBlob { path: String, content_type: String },
    /// Publish this message on the jobs queue.
    PublishJob { message: JobMessage },
    /// Answer the client.
    Answer { response: JsonResponse<SubmittedJob> },
}

/// The error answer for a content type, or `None` when it is accepted: only
/// markdown is; zip and tar archives are not yet supported, other types not
/// at all, and a missing type is an error too; all with status 400.
pub open spec fn type_error(content_type: Option<Seq<char>>) -> Option<(u16, Seq<char>)> {
    match content_type {
        None => Some((400, "No content type given."@)),
        Some(c) => if c == markdown_type() {
            None
        } else if is_archive_type(c) {
            Some((400, "Content type '"@ + c + "' files are not yet supported."@))
        } else {
            Some((400, "Content type '"@ + c + "' files are not supported."@))
        },
    }
}

/// `s` failed with this status and message.
pub open spec fn failed_with(s: SubmitState, status: u16, message: Seq<char>) -> SubmitState {
    SubmitState { stage: SubmitStage::Failed, error_status: status, error_message: message, ..s }
}

/// `t` is the state after a step of the submission in state `s` ended with
/// `e`. A persisted upload of an accepted type is stored, of any other type
/// refused; a stored blob becomes a job with a fresh random id, which is
/// published; a published job is answered. Any failure answers with status
/// 500 and the error; an ended submission stays as it is, and so does one
/// given an event that does not fit its step.
pub open spec fn submit_step(s: SubmitState, e: SubmitEventView, t: SubmitState) -> bool {
    match s.stage {
        SubmitStage::Persist => match e {
            SubmitEventView::Persisted => match type_error(s.content_type) {
                None => t == SubmitState { stage: SubmitStage::Store, blob_type: s.content_type.unwrap(), ..s },
                Some((code, message)) => t == failed_with(s, code, message),
            },
            SubmitEventView::PersistFailed(m) => t == failed_with(s, 500, "IO Error: "@ + m),
            _ => t == s,
        },
        SubmitStage::Store => match e {
            SubmitEventView::Stored(d) => t == SubmitState { stage: SubmitStage::Publish, digest: d, id: t.id, ..s }
                && t.id.is_v4(),
            SubmitEventView::StoreFailed(m) => t == failed_with(s, 500, "IO Error: "@ + m),
            _ => t == s,
        },
        SubmitStage::Publish => match e {
            SubmitEventView::Published => t == SubmitState { stage: SubmitStage::Finished, ..s },
            SubmitEventView::PublishFailed(m) => t == failed_with(
                s,
                500,
                "Could not publish job id '"@ + hyphenated(s.id.value) + "', error: \n'"@ + m + "'."@,
            ),
            _ => t == s,
        },
        _ => t == s,
    }
}

/// The action `a` is the one to take in state `s`.
pub open spec fn submit_action_for(s: SubmitState, a: SubmitAction) -> bool {
    match s.stage {
        SubmitStage::Persist => a matches SubmitAction::PersistUpload { path } && path@ == s.tmp,
        SubmitStage::Store => a matches SubmitAction::StoreBlob { path, content_type } && path@ == s.tmp
            && content_type@ == s.blob_type,
        SubmitStage::Publish => a matches SubmitAction::PublishJob { message } && message.id == s.id
            && message.name@ == s.name && message.blob_digest@ == s.digest && message.blob_content_type@
            == s.blob_type,
        SubmitStage::Finished => a matches SubmitAction::Answer { response } && response matches Ok(j)
            && j.id == s.id && j.digest@ == s.digest,
        SubmitStage::Failed => a matches SubmitAction::Answer { response } && response matches Err(e)
            && e.status.code == s.error_status && e.message@ == s.error_message,
    }
}

/// Submitting one job: the caller performs `action()` and reports how it
/// went to `advance`.
pub struct SubmitProcedure {
    name: String,
    content_type: Option<String>,
    tmp: String,
    stage: SubmitStage,
    blob_type: String,
    digest: String,
    id: Uuid,
    error_status: u16,
    error_message: String,
}

/// The view of an optional text.
pub open spec fn opt_view(o: Option<String>) -> Option<Seq<char>> {
    match o {
        Some(s) => Some(s@),
        None => None,
    }
}

impl View for SubmitProcedure {
    type V = SubmitState;

    closed spec fn view(&self) -> SubmitState {
        SubmitState {
            name: self.name@,
            content_type: opt_view(self.content_type),
            tmp: self.tmp@,
            stage: self.stage,
            blob_type: self.blob_type@,
            digest: self.digest@,
            id: self.id,
            error_status: self.error_status,
            error_message: self.error_message@,
        }
    }
}

impl SubmitProcedure {
    /// Starts submitting the job `name`, whose upload declares
    /// `content_type`, with a fresh temporary file inside `temp_dir`.
    pub fn new(name: &str, content_type: Option<&str>, temp_dir: &str) -> (p: SubmitProcedure)
        ensures
            p@.name == name@,
            p@.content_type == (match content_type {
                Some(c) => Some(c@),
                None => None::<Seq<char>>,
            }),
            exists|v: u128| is_random_v4(v) && p@.tmp == #[trigger] joined_path(temp_dir@, hyphenated(v)),
            p@.stage == SubmitStage::Persist,
    {
        let tmp = upload_temp_path(temp_dir);
        let content_type = match content_type {
            Some(c) => Some(String::from_str(c)),
            None => None,
        };
        SubmitProcedure {
            name: String::from_str(name),
            content_type,
            tmp,
            stage: SubmitStage::Persist,
            blob_type: String::new(),
            digest: String::new(),
            id: Uuid::from_u128(0),
            error_status: 0,
            error_message: String::new(),
        }
    }

    /// What to do now.
    pub fn action(&self) -> (a: SubmitAction)
        ensures
            submit_action_for(self@, a),
    {
        match self.stage {
            SubmitStage::Persist => SubmitAction::PersistUpload { path: self.tmp.clone() },
            SubmitStage::Store => SubmitAction::StoreBlob {
                path: self.tmp.clone(),
                content_type: self.blob_type.clone(),
            },
            SubmitStage::Publish => SubmitAction::PublishJob {
                message: JobMessage {
                    id: self.id,
                    name: self.name.clone(),
                    blob_digest: self.digest.clone(),
                    blob_content_type: self.blob_type.clone(),
                },
            },
            SubmitStage::Finished => {
                let bundle = crate::job::JobBundle {
                    name: self.name.clone(),
                    id: self.id,
                    blob_digest: self.digest.clone(),
                    blob_content_type: self.blob_type.clone(),
                };
                SubmitAction::Answer { response: submitted(bundle) }
            },
            SubmitStage::Failed => SubmitAction::Answer {
                response: Err(
                    response::Error::new(Status { code: self.error_status }, self.error_message.clone()),
                ),
            },
        }
    }

    fn fail(&mut self, status: u16, message: String)
        ensures
            final(self)@ == failed_with(old(self)@, status, message@),
    {
        self.stage = SubmitStage::Failed;
        self.error_status = status;
        self.error_message = message;
    }

    /// Moves on after the current step ended with `event`.
    pub fn advance(&mut self, event: SubmitEvent)
        ensures
            submit_step(old(self)@, event@, final(self)@),
    {
        match self.stage {
            SubmitStage::Persist => match event {
                SubmitEvent::Persisted => {
                    let checked = match &self.content_type {
                        Some(c) => check_content_type(Some(c.as_str())),
                        None => check_content_type(None),
                    };
                    match checked {
                        Ok(t) => {
                            self.blob_type = t;
                            self.stage = SubmitStage::Store;
                        },
                        Err(e) => {
                            self.fail(e.status.code, e.message);
                        },
                    }
                },
                SubmitEvent::PersistFailed(m) => {
                    let e = response::Error::from_io(m.as_str());
                    self.fail(e.status.code, e.message);
                },
                _ => {},
            },
            SubmitStage::Store => match event {
                SubmitEvent::Stored(d) => {
                    let bundle = bundle_for_stored(self.name.as_str(), d.as_str(), self.blob_type.as_str());
                    self.id = bundle.id;
                    self.digest = d;
                    self.stage = SubmitStage::Publish;
                },
                SubmitEvent::StoreFailed(m) => {
                    let e = response::Error::from_io(m.as_str());
                    self.fail(e.status.code, e.message);
                },
                _ => {},
            },
            SubmitStage::Publish => match event {
                SubmitEvent::Published => {
                    self.stage = SubmitStage::Finished;
                },
                SubmitEvent::PublishFailed(m) => {
                    let id = self.id.to_string();
                    let msg = concat5("Could not publish job id '", id.as_str(), "', error: \n'", m.as_str(), "'.");
                    self.fail(500, msg);
                },
                _ => {},
            },
            _ => {},
        }
    }

    /// Whether the client can be answered.
    pub fn is_over(&self) -> (b: bool)
        ensures
            b == (self@.stage is Finished || self@.stage is Failed),
    {
        match self.stage {
            SubmitStage::Finished | SubmitStage::Failed => true,
            _ => false,
        }
    }
}

/// An upload of a refused content type is never stored: its submission fails
/// right after it is persisted, with status 400.
pub proof fn refused_upload_is_never_stored(s: SubmitState, t: SubmitState)
    requires
        s.stage is Persist,
        type_error(s.content_type) is Some,
        submit_step(s, SubmitEventView::Persisted, t),
    ensures
        t.stage is Failed,
        t.error_status == 400,
{
}

/// A job is put on the queue only once its blob is stored, and the job on
/// the queue is the one the client is answered with: same id, same digest.
pub proof fn published_job_is_the_answered_job(
    s: SubmitState,
    t: SubmitState,
    publish: SubmitAction,
    answer: SubmitAction,
)
    requires
        s.stage is Publish,
        submit_action_for(s, publish),
        submit_step(s, SubmitEventView::Published, t),
        submit_action_for(t, answer),
    ensures
        publish matches SubmitAction::PublishJob { message } && answer matches SubmitAction::Answer { response }
            && response matches Ok(j) && j.id == message.id && j.digest@ == message.blob_digest@,
{
}

/// The only step that leads to publishing is a stored blob, and the job
/// published carries the blob's digest.
pub proof fn publishing_follows_storing(s: SubmitState, e: SubmitEventView, t: SubmitState)
    requires
        s.stage !is Publish,
        submit_step(s, e, t),
        t.stage is Publish,
    ensures
        s.stage is Store,
        e matches SubmitEventView::Stored(d) && t.digest == d,
{
}

/// An answered submission stays as it is, whatever is reported.
pub proof fn answered_submission_stays(s: SubmitState, e: SubmitEventView, t: SubmitState)
    requires
        s.stage is Finished || s.stage is Failed,
        submit_step(s, e, t),
    ensures
        t == s,
{
}

} // verus!
