use std::collections::HashMap;

use ingest_pipeline::compression::Compression;
use ingest_pipeline::engine::{step, Action, DeliveryState, Event, Queue, Stage};
use ingest_pipeline::error::ParseError;
use ingest_pipeline::file_type::FileType;
use ingest_pipeline::parsers::{ContentsDecode, EnvelopeDecode, MetaDataContentParser, MetaDataParser, ParseResult};
use ingest_pipeline::storage_key::FileData;

#[derive(Default)]
struct World {
    store: HashMap<String, Vec<u8>>,
    uploads: Vec<(String, Vec<u8>)>,
    published: Vec<(Queue, String)>,
    deleted: Vec<String>,
    stored: usize,
    trace: Vec<String>,
}

type ParseFn = dyn Fn(&FileData, FileType, &[u8]) -> Result<ParseResult<()>, ParseError>;

fn deliver(stage: Stage, key: &str, w: &mut World, parse: &ParseFn) -> bool {
    let file = FileData::try_from(key).ok();
    let mut state = DeliveryState::Received;
    let mut event = Event::Delivered { key: key.to_string() };
    for _ in 0..20 {
        let (next, action) = step(stage, state, event);
        state = next;
        w.trace.push(format!("{:?}", action).split(' ').next().unwrap().to_string());
        event = match action {
            Action::Fetch { path } => Event::Fetched { bytes: w.store.get(&path).cloned() },
            Action::Parse { file_type, content } => {
                Event::Parsed { result: parse(file.as_ref().unwrap(), file_type, &content) }
            }
            Action::Store => {
                w.stored += 1;
                Event::Done { ok: true }
            }
            Action::Upload { path, bytes } => {
                w.uploads.push((path.clone(), bytes.clone()));
                w.store.insert(path, bytes);
                Event::Done { ok: true }
            }
            Action::Publish { queue, key } => {
                w.published.push((queue, key));
                Event::Done { ok: true }
            }
            Action::Delete { path } => {
                w.store.remove(&path);
                w.deleted.push(path);
                Event::Done { ok: true }
            }
            Action::CheckExists { path } => Event::Exists { found: w.store.contains_key(&path) },
            Action::Ack => return true,
            Action::Reject => return false,
            Action::Idle => panic!("settled delivery asked for more"),
        };
    }
    panic!("delivery did not settle")
}

fn metadata_ok(f: &FileData, t: FileType, content: &[u8]) -> Result<ParseResult<()>, ParseError> {
    assert_eq!(t, FileType::Metadata);
    let decoded = EnvelopeDecode::Decoded { match_details: content[1..].to_vec(), contents: ContentsDecode::MatchInfo(()) };
    MetaDataParser.parse(f, decoded)
}

fn poison(_: &FileData, _: FileType, _: &[u8]) -> Result<ParseResult<()>, ParseError> {
    Err(ParseError::ProtobufDecode)
}

#[test]
fn end_to_end_metadata_delivery() {
    let key = "/ingest/user-ingest/meta/T002_M123_C45_S67.meta";
    let mut w = World::default();
    w.store.insert(key.to_string(), vec![0xAA, 1, 2, 3, 4]);
    assert!(deliver(Stage::Validate, key, &mut w, &metadata_ok));
    assert_eq!(w.trace, vec!["Fetch", "Parse", "Upload", "Publish", "Delete", "Ack"]);
    let target = "/parsed/metac/T002_M123_C45_S67.metac.zst";
    assert_eq!(w.uploads.len(), 1);
    assert_eq!(w.uploads[0].0, target);
    assert_eq!(Compression::Zstd.decompress(&w.uploads[0].1).unwrap(), vec![1, 2, 3, 4]);
    assert_eq!(w.published, vec![(Queue::Downstream, target.to_string())]);
    assert_eq!(w.deleted, vec![key.to_string()]);
    assert!(!w.store.contains_key(key));
}

#[test]
fn load_stage_stores_before_upload_and_publishes_nothing() {
    let key = "T002_M1_C2_S3.meta";
    let mut w = World::default();
    w.store.insert(key.to_string(), vec![0, 9]);
    assert!(deliver(Stage::Load, key, &mut w, &metadata_ok));
    assert_eq!(w.trace, vec!["Fetch", "Parse", "Store", "Upload", "Delete", "Ack"]);
    assert_eq!(w.stored, 1);
    assert!(w.published.is_empty());
}

#[test]
fn unchanged_object_is_uploaded_verbatim() {
    let key = "T1_M2.metac.zst";
    let original = Compression::Zstd.compress(b"contents").unwrap();
    let mut w = World::default();
    w.store.insert(key.to_string(), original.clone());
    let keep = |f: &FileData, _: FileType, c: &[u8]| MetaDataContentParser.parse(f, c, ContentsDecode::MatchInfo(()));
    assert!(deliver(Stage::Validate, key, &mut w, &keep));
    assert_eq!(w.uploads, vec![("/parsed/metac/T1_M2.metac.zst".to_string(), original)]);
}

#[test]
fn missing_object_is_rejected() {
    let key = "/ingest/T002_M5.meta";
    let mut w = World::default();
    assert!(!deliver(Stage::Validate, key, &mut w, &metadata_ok));
    assert_eq!(w.trace, vec!["Fetch", "Delete", "Reject"]);
    assert!(w.uploads.is_empty());
    assert!(w.published.is_empty());
}

#[test]
fn malformed_key_is_rejected_without_fetch() {
    let mut w = World::default();
    assert!(!deliver(Stage::Validate, "no-extension", &mut w, &metadata_ok));
    assert_eq!(w.trace, vec!["Reject"]);
}

#[test]
fn poison_key_redelivered_is_relocated_once() {
    let key = "/ingest/T002_M7.meta.bz2";
    let raw = Compression::Bzip2.compress(b"garbage").unwrap();
    let mut w = World::default();
    w.store.insert(key.to_string(), raw.clone());
    assert!(!deliver(Stage::Validate, key, &mut w, &poison));
    assert!(!deliver(Stage::Validate, key, &mut w, &poison));
    let failed = "/failed/meta/T002_M7.meta.bz2".to_string();
    assert_eq!(w.uploads, vec![(failed.clone(), raw)]);
    assert_eq!(w.published, vec![(Queue::ParseError, failed)]);
    assert!(!w.trace.contains(&"Ack".to_string()));
}

#[test]
fn undecodable_payload_takes_failure_path() {
    let key = "x.meta.zst";
    let mut w = World::default();
    w.store.insert(key.to_string(), b"not zstd".to_vec());
    assert!(!deliver(Stage::Load, key, &mut w, &metadata_ok));
    assert_eq!(w.trace, vec!["Fetch", "Delete", "CheckExists", "Upload", "Publish", "Reject"]);
    assert_eq!(w.uploads[0].0, "/failed/meta/x.meta.zst");
    assert_eq!(w.uploads[0].1, b"not zstd".to_vec());
}

#[test]
fn existing_failed_copy_suppresses_relocation() {
    let key = "x.meta";
    let mut w = World::default();
    w.store.insert(key.to_string(), vec![1]);
    w.store.insert("/failed/meta/x.meta".to_string(), vec![1]);
    assert!(!deliver(Stage::Validate, key, &mut w, &poison));
    assert_eq!(w.trace, vec!["Fetch", "Parse", "Delete", "CheckExists", "Reject"]);
    assert!(w.uploads.is_empty());
    assert!(w.published.is_empty());
}

#[test]
fn failed_upload_enters_failure_path() {
    let key = "x.meta";
    let mut state = DeliveryState::Received;
    let mut actions = Vec::new();
    let f = FileData::try_from(key).unwrap();
    let events = vec![
        Event::Delivered { key: key.to_string() },
        Event::Fetched { bytes: Some(vec![0, 1]) },
        Event::Parsed { result: metadata_ok(&f, FileType::Metadata, &[0, 1]) },
        Event::Done { ok: false },
        Event::Done { ok: true },
        Event::Exists { found: false },
        Event::Done { ok: true },
        Event::Done { ok: true },
        Event::Done { ok: true },
    ];
    for e in events {
        let (s, a) = step(Stage::Validate, state, e);
        state = s;
        actions.push(format!("{:?}", a).split(' ').next().unwrap().to_string());
    }
    assert_eq!(actions, vec!["Fetch", "Parse", "Upload", "Delete", "CheckExists", "Upload", "Publish", "Reject", "Idle"]);
}
