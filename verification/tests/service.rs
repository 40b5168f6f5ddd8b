use md2pdf::id::Uuid;
use md2pdf::job::JobBundle;
use md2pdf::service::handlers::{all_jobs, debug_job, debug_publish_answer, job_by_id, submitted};
use md2pdf::service::persist::{bundle_for_stored, check_content_type, upload_temp_path};

#[test]
fn content_types() {
    assert_eq!(check_content_type(Some("text/markdown")).unwrap(), "text/markdown");
    let e = check_content_type(None).unwrap_err();
    assert_eq!((e.status.code, e.message.as_str()), (400, "No content type given."));
    let e = check_content_type(Some("application/x-zip")).unwrap_err();
    assert_eq!((e.status.code, e.message.as_str()), (400, "Content type 'application/x-zip' files are not yet supported."));
    let e = check_content_type(Some("application/x-tar")).unwrap_err();
    assert_eq!(e.message, "Content type 'application/x-tar' files are not yet supported.");
    let e = check_content_type(Some("text/markdown; charset=utf-8")).unwrap_err();
    assert_eq!((e.status.code, e.message.as_str()), (400, "Content type 'text/markdown; charset=utf-8' files are not supported."));
}

#[test]
fn upload_path_and_bundle() {
    let p = upload_temp_path("/tmp");
    assert!(p.starts_with("/tmp/"));
    assert_eq!(p.len(), 5 + 36);
    let b = bundle_for_stored("doc", "d1", "text/markdown");
    assert_eq!((b.name.as_str(), b.blob_digest.as_str(), b.blob_content_type.as_str()), ("doc", "d1", "text/markdown"));
}

#[test]
fn handler_answers() {
    let v = all_jobs().unwrap();
    assert_eq!(v.len(), 1);
    assert_eq!((v[0].name.as_str(), v[0].blob_digest.as_str(), v[0].blob_content_type.as_str()), ("my-doc", "no-digest", "text/markdown"));
    let b = job_by_id("whatever").unwrap();
    assert_eq!(b.name, "new job");
    let b = JobBundle::new("doc", "d1", "text/markdown");
    let id = b.id;
    let s = submitted(b).unwrap();
    assert_eq!(s.id, id);
    assert_eq!(s.digest, "d1");
    assert_eq!(debug_job().name, "my-doc");
}

#[test]
fn debug_publish() {
    let mut job = JobBundle::new("my-doc", "no-digest", "text/markdown");
    job.id = Uuid::from_u128(0x67e55044_10b1_426f_9247_bb680e5fe0c8);
    let e = debug_publish_answer(job, Err("broken pipe".to_string())).unwrap_err();
    assert_eq!(e.status.code, 500);
    assert_eq!(e.message, "Could not publish job id '67e55044-10b1-426f-9247-bb680e5fe0c8', error: \n'broken pipe'.");
    let job = JobBundle::new("my-doc", "no-digest", "text/markdown");
    let id = job.id;
    assert_eq!(debug_publish_answer(job, Ok(())).unwrap().id, id);
}

use md2pdf::service::submit::{SubmitAction, SubmitEvent, SubmitProcedure};

fn answer(p: &SubmitProcedure) -> Result<(u128, String), (u16, String)> {
    match p.action() {
        SubmitAction::Answer { response } => match response {
            Ok(j) => Ok((j.id.as_u128(), j.digest)),
            Err(e) => Err((e.status.code, e.message)),
        },
        other => panic!("not an answer: {other:?}"),
    }
}

#[test]
fn submit_stores_publishes_and_answers() {
    let mut p = SubmitProcedure::new("doc", Some("text/markdown"), "/tmp");
    let tmp = match p.action() {
        SubmitAction::PersistUpload { path } => path,
        other => panic!("{other:?}"),
    };
    assert!(tmp.starts_with("/tmp/"));
    p.advance(SubmitEvent::Persisted);
    match p.action() {
        SubmitAction::StoreBlob { path, content_type } => {
            assert_eq!(path, tmp);
            assert_eq!(content_type, "text/markdown");
        }
        other => panic!("{other:?}"),
    }
    p.advance(SubmitEvent::Stored("d1".to_string()));
    let message = match p.action() {
        SubmitAction::PublishJob { message } => message,
        other => panic!("{other:?}"),
    };
    assert_eq!(message.name, "doc");
    assert_eq!(message.blob_digest, "d1");
    assert_eq!(message.blob_content_type, "text/markdown");
    assert!(!p.is_over());
    p.advance(SubmitEvent::Published);
    assert!(p.is_over());
    // The job on the queue is the job the client is answered with.
    assert_eq!(answer(&p), Ok((message.id.as_u128(), "d1".to_string())));
    p.advance(SubmitEvent::PublishFailed("late".to_string()));
    assert_eq!(answer(&p), Ok((message.id.as_u128(), "d1".to_string())));
}

#[test]
fn submit_refuses_other_types_before_storing() {
    let mut p = SubmitProcedure::new("doc", Some("application/x-zip"), "/tmp");
    p.advance(SubmitEvent::Persisted);
    assert_eq!(answer(&p), Err((400, "Content type 'application/x-zip' files are not yet supported.".to_string())));
    let mut p = SubmitProcedure::new("doc", None, "/tmp");
    p.advance(SubmitEvent::Persisted);
    assert_eq!(answer(&p), Err((400, "No content type given.".to_string())));
    let mut p = SubmitProcedure::new("doc", Some("text/plain"), "/tmp");
    p.advance(SubmitEvent::Persisted);
    p.advance(SubmitEvent::Stored("d1".to_string()));
    assert_eq!(answer(&p), Err((400, "Content type 'text/plain' files are not supported.".to_string())));
}

#[test]
fn submit_failures() {
    let mut p = SubmitProcedure::new("doc", Some("text/markdown"), "/tmp");
    p.advance(SubmitEvent::PersistFailed("disk full".to_string()));
    assert_eq!(answer(&p), Err((500, "IO Error: disk full".to_string())));
    let mut p = SubmitProcedure::new("doc", Some("text/markdown"), "/tmp");
    p.advance(SubmitEvent::Persisted);
    p.advance(SubmitEvent::StoreFailed("no space".to_string()));
    assert_eq!(answer(&p), Err((500, "IO Error: no space".to_string())));
    let mut p = SubmitProcedure::new("doc", Some("text/markdown"), "/tmp");
    p.advance(SubmitEvent::Persisted);
    p.advance(SubmitEvent::Stored("d1".to_string()));
    let id = match p.action() {
        SubmitAction::PublishJob { message } => message.id,
        other => panic!("{other:?}"),
    };
    p.advance(SubmitEvent::PublishFailed("closed".to_string()));
    assert_eq!(
        answer(&p),
        Err((500, format!("Could not publish job id '{}', error: \n'closed'.", id.to_string())))
    );
}

#[test]
fn submit_ignores_events_that_do_not_fit() {
    let mut p = SubmitProcedure::new("doc", Some("text/markdown"), "/tmp");
    p.advance(SubmitEvent::Published);
    p.advance(SubmitEvent::Stored("x".to_string()));
    assert!(matches!(p.action(), SubmitAction::PersistUpload { .. }));
}
