use md2pdf::api::files::{bundle_dir, create_job_bundle, document_path};
use md2pdf::api::messages::all_jobs as api_all_jobs;
use md2pdf::broker::{broker_address, parse_port_text, AddressError};
use md2pdf::config::{parse_bool_text, EnvVars};
use md2pdf::consumer::ConsumerSettings;
use md2pdf::fairing::GuardInternalErrors;
use md2pdf::id::Uuid;
use md2pdf::job::JobBundle;
use md2pdf::log::Level;
use md2pdf::messages::jobs::JobMessage;
use md2pdf::messages::status::{create_completion, create_log, JobLogLevel, JobStatus, StatusMessage};
use md2pdf::path::join;
use md2pdf::response::{new_failure, new_success, Error, Status};
use md2pdf::text::{bool_str, str_eq};
use md2pdf::time::Timestamp;

#[test]
fn uuid_text_is_hyphenated_lower_hex() {
    let id = Uuid::from_u128(0x67e55044_10b1_426f_9247_bb680e5fe0c8);
    assert_eq!(id.to_string(), "67e55044-10b1-426f-9247-bb680e5fe0c8");
    assert_eq!(id.as_u128(), 0x67e55044_10b1_426f_9247_bb680e5fe0c8);
    assert_eq!(Uuid::from_u128(0).to_string(), "00000000-0000-0000-0000-000000000000");
    assert_eq!(Uuid::from_u128(u128::MAX).to_string(), "ffffffff-ffff-ffff-ffff-ffffffffffff");
}

#[test]
fn random_ids_are_version_four() {
    for _ in 0..50 {
        let id = Uuid::new_v4();
        let text: Vec<char> = id.to_string().chars().collect();
        assert_eq!(text.len(), 36);
        assert_eq!(text[14], '4');
        assert!(['8', '9', 'a', 'b'].contains(&text[19]));
        assert_eq!((id.as_u128() >> 76) & 0xf, 4);
    }
    assert_ne!(Uuid::new_v4(), Uuid::new_v4());
}

#[test]
fn timestamp_is_after_epoch() {
    let t = Timestamp::now();
    assert!(t.secs > 1_600_000_000);
    assert!(t.nanos < 1_000_000_000);
}

#[test]
fn job_bundle_and_message() {
    let b = JobBundle::new("doc", "abc", "text/markdown");
    assert_eq!(b.name, "doc");
    assert_eq!(b.blob_digest, "abc");
    assert_eq!(b.blob_content_type, "text/markdown");
    let m = JobMessage::from_bundle_ref(&b);
    assert_eq!(m.name, "doc");
    assert_eq!(m.blob_digest, "abc");
    assert_eq!(m.blob_content_type, "text/markdown");
    // The message carries the job's id.
    assert_eq!(m.id, b.id);
    let id = b.id;
    let m = JobMessage::from_bundle(b);
    assert_eq!(m.id, id);
    let mut fixed = JobBundle::new("doc", "abc", "text/markdown");
    fixed.id = Uuid::from_u128(7);
    assert_eq!(JobMessage::from_bundle_ref(&fixed).id, Uuid::from_u128(7));
    let m = JobMessage::new("n".to_string(), "d".to_string(), "t".to_string());
    assert_eq!((m.name.as_str(), m.blob_digest.as_str(), m.blob_content_type.as_str()), ("n", "d", "t"));
}

#[test]
fn status_messages_keep_job_id() {
    let job = Uuid::from_u128(7);
    let l = create_log(job, "converting", JobLogLevel::Warning);
    assert_eq!(*l.job_id(), job);
    match l {
        StatusMessage::Log(m) => {
            assert_eq!(m.message, "converting");
            assert_eq!(m.level, JobLogLevel::Warning);
            assert_ne!(m.id, job);
        }
        _ => panic!("not a log message"),
    }
    let c = create_completion(job, JobStatus::Failure, "log text");
    assert_eq!(*c.job_id(), job);
    match c {
        StatusMessage::Completion(m) => {
            assert_eq!(m.status, JobStatus::Failure);
            assert_eq!(m.log, "log text");
        }
        _ => panic!("not a completion"),
    }
}

#[test]
fn level_backend_numbers() {
    let levels = [Level::Critical, Level::Error, Level::Warning, Level::Info, Level::Debug, Level::Trace];
    for (i, l) in levels.iter().enumerate() {
        assert_eq!(l.backend_number(), i + 1);
    }
    assert!(Level::Critical < Level::Trace);
}

#[test]
fn responses() {
    let ok: Result<u32, Error> = new_success(3);
    assert_eq!(ok.unwrap(), 3);
    let err: Result<u32, Error> = new_failure(Status::bad_request(), "bad".to_string());
    let e = err.unwrap_err();
    assert_eq!(e.status.code, 400);
    assert_eq!(e.to_string(), "bad");
    let io = Error::from_io("disk full");
    assert_eq!(io.status, Status::internal_server_error());
    assert_eq!(io.message, "IO Error: disk full");
    assert!(Status::internal_server_error().is_server_error());
    assert!(Status { code: 599 }.is_server_error());
    assert!(!Status { code: 600 }.is_server_error());
    assert!(!Status::not_found().is_server_error());
}

#[test]
fn guard_replaces_server_error_bodies() {
    let g = GuardInternalErrors();
    assert_eq!(g.name(), "Guard Internal Errors");
    assert_eq!(g.replacement_body(Status { code: 503 }), Some("Internal error occured, see the logs."));
    assert_eq!(g.replacement_body(Status { code: 404 }), None);
    assert_eq!(g.replacement_body(Status { code: 200 }), None);
}

#[test]
fn consumer_acknowledges_only_by_hand() {
    let manual = ConsumerSettings::new(false);
    let a = manual.ack_for(42).unwrap();
    assert_eq!(a.delivery_tag, 42);
    assert!(!a.multiple);
    assert_eq!(ConsumerSettings::new(true).ack_for(42), None);
}

#[test]
fn text_helpers() {
    assert!(str_eq("abc", "abc"));
    assert!(!str_eq("abc", "abd"));
    assert!(!str_eq("ab", "abc"));
    assert!(str_eq("", ""));
    assert!(str_eq("äö", "äö"));
    assert_eq!(bool_str(true), "true");
    assert_eq!(bool_str(false), "false");
    assert_eq!(parse_bool_text("true"), Some(true));
    assert_eq!(parse_bool_text("false"), Some(false));
    assert_eq!(parse_bool_text("True"), None);
    assert_eq!(parse_bool_text(""), None);
}

#[test]
fn paths_join() {
    assert_eq!(join("/data", "abc"), "/data/abc");
    assert_eq!(join("/data/", "abc"), "/data/abc");
    assert_eq!(join("/data", "/etc"), "/etc");
}

#[test]
fn port_parsing() {
    assert_eq!(parse_port_text("5672"), Some(5672));
    assert_eq!(parse_port_text("+80"), Some(80));
    assert_eq!(parse_port_text("0"), Some(0));
    assert_eq!(parse_port_text("00080"), Some(80));
    assert_eq!(parse_port_text("65535"), Some(65535));
    assert_eq!(parse_port_text("65536"), None);
    assert_eq!(parse_port_text("99999999999999999999"), None);
    assert_eq!(parse_port_text(""), None);
    assert_eq!(parse_port_text("+"), None);
    assert_eq!(parse_port_text("-1"), None);
    assert_eq!(parse_port_text("12a"), None);
    assert_eq!(parse_port_text(" 1"), None);
    for text in ["1", "443", "+7", "65535", "65536", "x", "", "+", "++1", "-0"] {
        assert_eq!(parse_port_text(text), u16::from_str_radix(text, 10).ok(), "{text}");
    }
}

#[test]
fn broker_address_from_environment() {
    let mut env = EnvVars::new();
    env.push("AMQP_HOST".to_string(), "broker".to_string());
    assert_eq!(broker_address(&env).unwrap_err().to_string(), "AMQP_PORT must be set!");
    env.push("AMQP_PORT".to_string(), "x".to_string());
    assert!(matches!(broker_address(&env), Err(AddressError::PortNotANumber)));
    assert_eq!(broker_address(&env).unwrap_err().to_string(), "AMQP_PORT must be a number");
    let mut env = EnvVars::new();
    for (k, v) in [("AMQP_HOST", "broker"), ("AMQP_PORT", "5672"), ("AMQP_USER", "u"), ("AMQP_PASSWORD", "p")] {
        env.push(k.to_string(), v.to_string());
    }
    let a = broker_address(&env).unwrap();
    assert_eq!((a.host.as_str(), a.port, a.user.as_str(), a.password.as_str()), ("broker", 5672, "u", "p"));
    assert_eq!(broker_address(&EnvVars::new()).unwrap_err().to_string(), "AMQP_HOST must be set!");
}

#[test]
fn first_api_paths() {
    let id = Uuid::from_u128(0x67e55044_10b1_426f_9247_bb680e5fe0c8);
    assert_eq!(bundle_dir(Some("/blobs"), &id), "/blobs/67e55044-10b1-426f-9247-bb680e5fe0c8");
    let d = bundle_dir(None, &id);
    assert_eq!(d, "/tmp/markdown-to-pdf/67e55044-10b1-426f-9247-bb680e5fe0c8");
    assert_eq!(document_path(&d), "/tmp/markdown-to-pdf/67e55044-10b1-426f-9247-bb680e5fe0c8/document.md");
    let b = create_job_bundle("n".to_string(), "s".to_string());
    assert_eq!((b.name.as_str(), b.stylesheet.as_str()), ("n", "s"));
    assert!(api_all_jobs().is_empty());
}

#[test]
fn env_reads_back_what_was_added() {
    let mut env = EnvVars::new();
    assert_eq!(env.get("A"), None);
    env.push("A".to_string(), "1".to_string());
    assert_eq!(env.get("A"), Some("1".to_string()));
    env.push("B".to_string(), "2".to_string());
    assert_eq!(env.get("A"), Some("1".to_string()));
    assert_eq!(env.get("B"), Some("2".to_string()));
    env.push("A".to_string(), "3".to_string());
    assert_eq!(env.get("A"), Some("1".to_string()));
    assert_eq!(env.get_env_bool("A").unwrap_err().to_string(), "A must be true or false!");
}
