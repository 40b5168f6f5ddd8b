use md2pdf::storage::digest::{digest_hex, Sha256Digester};
use md2pdf::storage::disk_storage::{DiskStorage, StoreAction, StoreEvent, StoreStage};

const ABC: &str = "ba7816bf8f01cfea414140de5dae2223b00361a396177a9cb410ff61f20015ad";

#[test]
fn digest_of_known_inputs() {
    assert_eq!(digest_hex(b"abc"), ABC);
    assert_eq!(digest_hex(b""), "e3b0c44298fc1c149afbf4c8996fb92427ae41e4649b934ca495991b7852b855");
}

#[test]
fn digest_does_not_depend_on_chunks() {
    let mut d = Sha256Digester::new();
    let mut buf = [0u8; 4];
    buf[..2].copy_from_slice(b"ab");
    assert!(!d.absorb(&buf, 2));
    buf[..1].copy_from_slice(b"c");
    assert!(!d.absorb(&buf, 1));
    assert_eq!(d.absorbed_len(), 3);
    assert!(d.absorb(&buf, 0));
    assert_eq!(d.finish(), ABC);
    let data: Vec<u8> = (0..3000u32).map(|i| (i % 251) as u8).collect();
    let mut d = Sha256Digester::new();
    for chunk in data.chunks(1024) {
        assert!(!d.absorb(chunk, chunk.len()));
    }
    assert_eq!(d.finish(), digest_hex(&data));
}

#[test]
fn blob_paths_and_urls() {
    let s = DiskStorage::new("/blobs");
    assert_eq!(s.get_blob_path(ABC), format!("/blobs/{ABC}"));
    assert_eq!(s.url_for(ABC, true), Some(format!("file:///blobs/{ABC}/file")));
    assert_eq!(s.url_for(ABC, false), None);
    assert_eq!(s.delete_target(ABC, true), Some(format!("/blobs/{ABC}")));
    assert_eq!(s.delete_target(ABC, false), None);
    let p = s.pre_store();
    let text = p.path().to_string();
    assert!(text.starts_with("/blobs/"));
    assert_eq!(text.len(), "/blobs/".len() + 36);
    let e = p.finalize();
    assert_eq!(e.path(), text);
}

fn describe(a: &StoreAction) -> String {
    match a {
        StoreAction::ReadChunk { file } => format!("read {file}"),
        StoreAction::CheckExists { path } => format!("exists {path}"),
        StoreAction::CreateFolder { path } => format!("mkdir {path}"),
        StoreAction::Copy { from, to } => format!("copy {from} {to}"),
        StoreAction::Remove { path } => format!("remove {path}"),
        StoreAction::ReturnDigest { digest } => format!("ok {digest}"),
        StoreAction::ReturnError => "error".to_string(),
        StoreAction::Abort { message } => format!("abort {message}"),
    }
}

fn run(events: Vec<StoreEvent>) -> Vec<String> {
    let s = DiskStorage::new("/blobs");
    let tmp = s.pre_store();
    let tmp_path = tmp.path().to_string();
    let mut p = s.store(tmp.finalize());
    let mut seen = vec![describe(&p.action()).replace(&tmp_path, "TMP")];
    for e in events {
        p.advance(e);
        seen.push(describe(&p.action()).replace(&tmp_path, "TMP"));
    }
    seen
}

fn chunk(b: &[u8]) -> StoreEvent {
    StoreEvent::Chunk(b.to_vec())
}

#[test]
fn store_copies_a_new_blob_into_its_folder() {
    let seen = run(vec![chunk(b"ab"), chunk(b"c"), chunk(b""), StoreEvent::Exists(false), StoreEvent::Done, StoreEvent::Done, StoreEvent::Done]);
    assert_eq!(
        seen,
        vec![
            "read TMP".to_string(),
            "read TMP".to_string(),
            "read TMP".to_string(),
            format!("exists /blobs/{ABC}"),
            format!("mkdir /blobs/{ABC}"),
            format!("copy TMP /blobs/{ABC}/file"),
            "remove TMP".to_string(),
            format!("ok {ABC}"),
        ]
    );
    // The URL of the stored blob names the file the store copied to.
    assert_eq!(DiskStorage::new("/blobs").url_for(ABC, true), Some(format!("file:///blobs/{ABC}/file")));
}

#[test]
fn store_skips_a_known_blob() {
    let seen = run(vec![chunk(b"abc"), chunk(b""), StoreEvent::Exists(true), StoreEvent::Done]);
    assert_eq!(
        seen,
        vec![
            "read TMP".to_string(),
            "read TMP".to_string(),
            format!("exists /blobs/{ABC}"),
            "remove TMP".to_string(),
            format!("ok {ABC}"),
        ]
    );
}

#[test]
fn store_of_an_empty_file() {
    let seen = run(vec![chunk(b""), StoreEvent::Exists(true), StoreEvent::Done]);
    assert_eq!(seen.last().unwrap(), &format!("ok {}", digest_hex(b"")));
}

#[test]
fn store_failures_still_remove_the_file() {
    let seen = run(vec![StoreEvent::Failed, StoreEvent::Done]);
    assert_eq!(seen, vec!["read TMP", "remove TMP", "error"]);
    let seen = run(vec![chunk(b"abc"), chunk(b""), StoreEvent::Exists(false), StoreEvent::Failed, StoreEvent::Done]);
    assert_eq!(seen[3..], ["mkdir /blobs/".to_string() + ABC, "remove TMP".to_string(), "error".to_string()]);
    let seen = run(vec![
        chunk(b"abc"),
        chunk(b""),
        StoreEvent::Exists(false),
        StoreEvent::Done,
        StoreEvent::Failed,
        StoreEvent::Done,
    ]);
    assert_eq!(seen[4..], [format!("copy TMP /blobs/{ABC}/file"), "remove TMP".to_string(), "error".to_string()]);
    let seen = run(vec![StoreEvent::Failed, StoreEvent::Failed]);
    assert_eq!(seen, vec!["read TMP", "remove TMP", "abort File should have been deleted."]);
}

#[test]
fn store_ignores_events_that_do_not_fit() {
    let s = DiskStorage::new("/blobs");
    let mut p = s.store(s.pre_store().finalize());
    p.advance(StoreEvent::Exists(true));
    p.advance(StoreEvent::Done);
    assert!(matches!(p.action(), StoreAction::ReadChunk { .. }));
    assert!(!p.is_over());
    p.advance(chunk(b"xyz"));
    assert_eq!(p.bytes_read(), 3);
    let _ = StoreStage::Finished;
}
