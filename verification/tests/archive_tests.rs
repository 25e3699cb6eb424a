use std::io::Write;

use codereview::errors::AppError;
use codereview::services::{bound_text, stage_archive, ArchiveIngestor, MAX_FILE_BYTES};
use zip::write::SimpleFileOptions;
use zip::{CompressionMethod, ZipWriter};

fn archive(entries: &[(&str, Option<&[u8]>)]) -> Vec<u8> {
    let mut writer = ZipWriter::new(std::io::Cursor::new(Vec::new()));
    let options = SimpleFileOptions::default().compression_method(CompressionMethod::Stored);
    for (name, data) in entries {
        match data {
            Some(bytes) => {
                writer.start_file(*name, options).unwrap();
                writer.write_all(bytes).unwrap();
            }
            None => {
                writer.add_directory(*name, options).unwrap();
            }
        }
    }
    writer.finish().unwrap().into_inner()
}

#[test]
fn stages_files_and_skips_directories() {
    let bytes = archive(&[
        ("src/", None),
        ("src/main.rs", Some(b"fn main() {}\n")),
        ("README.md", Some(b"hello")),
        ("docs/", None),
        ("docs/empty.txt", Some(b"")),
    ]);
    let files = stage_archive(bytes, MAX_FILE_BYTES).unwrap();
    assert_eq!(files.len(), 3);
    assert_eq!(files[0].nama_file, "main.rs");
    assert_eq!(files[0].folder.as_deref(), Some("src"));
    assert_eq!(files[0].full_path, "src/main.rs");
    assert_eq!(files[0].content_file.as_deref(), Some("fn main() {}\n"));
    assert_eq!(files[1].nama_file, "README.md");
    assert_eq!(files[1].folder.as_deref(), Some(""));
    assert_eq!(files[1].full_path, "README.md");
    assert_eq!(files[1].content_file.as_deref(), Some("hello"));
    assert_eq!(files[2].nama_file, "empty.txt");
    assert_eq!(files[2].content_file, None);
}

#[test]
fn rejects_bytes_that_are_no_archive() {
    assert_eq!(stage_archive(b"not a zip".to_vec(), MAX_FILE_BYTES).unwrap_err(), AppError::Archive);
    assert!(matches!(ArchiveIngestor::open(Vec::new(), 16), Err(AppError::Archive)));
}

#[test]
fn bounds_content_to_the_cap() {
    let big = vec![b'a'; 1024 * 1024];
    let bytes = archive(&[("big.txt", Some(&big))]);
    let files = stage_archive(bytes, MAX_FILE_BYTES).unwrap();
    assert_eq!(files.len(), 1);
    assert_eq!(files[0].content_file.as_ref().unwrap().len(), 512 * 1024);
    assert_eq!(files[0].content_file, Some("a".repeat(524_288)));
}

#[test]
fn a_small_text_file_is_stored_as_it_is() {
    let bytes = archive(&[("src/a/b.rs", Some(b"hi"))]);
    let files = stage_archive(bytes, MAX_FILE_BYTES).unwrap();
    assert_eq!(files.len(), 1);
    assert_eq!(files[0].nama_file, "b.rs");
    assert_eq!(files[0].folder.as_deref(), Some("src/a"));
    assert_eq!(files[0].full_path, "src/a/b.rs");
    assert_eq!(files[0].content_file.as_deref(), Some("hi"));
}

#[test]
fn bound_text_keeps_whole_characters() {
    assert_eq!(bound_text("héllo".to_string(), 2), "h");
    assert_eq!(bound_text("héllo".to_string(), 3), "hé");
    assert_eq!(bound_text("héllo".to_string(), 100), "héllo");
    assert_eq!(bound_text("héllo".to_string(), 0), "");
}

use codereview::handlers::{upload_zip, UploadForm};
use codereview::services::{extract_and_store, Ingest, IngestAction, IngestEvent};

/// Runs an ingest against a store that fails at the statement `fail_at`,
/// counted from 0. Gives the actions in order.
fn run(ingest: &mut Ingest, fail_at: Option<usize>) -> Vec<IngestAction> {
    let mut actions = Vec::new();
    let mut event = IngestEvent::Start;
    for n in 0..64 {
        let action = ingest.step(event);
        let ended = matches!(action, IngestAction::Abort(_) | IngestAction::Finished(_));
        event = match &action {
            _ if fail_at == Some(n) => IngestEvent::Failed,
            IngestAction::InsertApplication(_) => IngestEvent::ApplicationInserted(41),
            _ => IngestEvent::Done,
        };
        actions.push(action);
        if ended {
            return actions;
        }
    }
    panic!("the ingest did not end");
}

fn sample() -> Vec<u8> {
    archive(&[
        ("app/", None),
        ("app/a.txt", Some(b"A")),
        ("app/sub/", None),
        ("app/sub/b.txt", Some(b"B")),
        ("c.txt", Some(b"C")),
    ])
}

#[test]
fn an_ingest_stores_one_application_and_one_row_for_each_file() {
    let mut ingest = extract_and_store("Demo", sample()).unwrap();
    let actions = run(&mut ingest, None);
    assert_eq!(actions.len(), 7);
    assert!(matches!(actions[0], IngestAction::Begin));
    assert!(matches!(&actions[1], IngestAction::InsertApplication(name) if name == "Demo"));
    let paths: Vec<&str> = actions[2..5]
        .iter()
        .map(|a| match a {
            IngestAction::InsertFile { app_id, file } => {
                assert_eq!(*app_id, 41);
                file.full_path.as_str()
            }
            other => panic!("unexpected action {:?}", other),
        })
        .collect();
    assert_eq!(paths, vec!["app/a.txt", "app/sub/b.txt", "c.txt"]);
    assert!(matches!(actions[5], IngestAction::Commit));
    assert!(matches!(actions[6], IngestAction::Finished(41)));
}

#[test]
fn an_archive_of_directories_stores_only_the_application() {
    let bytes = archive(&[("a/", None), ("a/b/", None)]);
    let mut ingest = extract_and_store("Empty", bytes).unwrap();
    let actions = run(&mut ingest, None);
    assert_eq!(actions.len(), 4);
    assert!(matches!(actions[2], IngestAction::Commit));
    assert!(matches!(actions[3], IngestAction::Finished(41)));
}

#[test]
fn a_failed_insert_aborts_and_nothing_is_committed() {
    for fail_at in 0..6 {
        let mut ingest = extract_and_store("Demo", sample()).unwrap();
        let actions = run(&mut ingest, Some(fail_at));
        assert_eq!(actions.len(), fail_at + 2, "failure at {}", fail_at);
        assert!(matches!(actions.last(), Some(IngestAction::Abort(AppError::Storage))));
        let commits = actions.iter().filter(|a| matches!(a, IngestAction::Commit)).count();
        assert_eq!(commits, if fail_at == 5 { 1 } else { 0 });
        assert!(!actions.iter().any(|a| matches!(a, IngestAction::Finished(_))));
        assert!(matches!(ingest.step(IngestEvent::Done), IngestAction::Abort(AppError::Storage)));
        assert!(matches!(ingest.step(IngestEvent::Start), IngestAction::Abort(AppError::Storage)));
    }
}

#[test]
fn an_event_out_of_turn_aborts() {
    let mut ingest = extract_and_store("Demo", sample()).unwrap();
    assert!(matches!(ingest.step(IngestEvent::Done), IngestAction::Abort(AppError::Storage)));
    let mut other = extract_and_store("Demo", sample()).unwrap();
    other.step(IngestEvent::Start);
    other.step(IngestEvent::Done);
    assert!(matches!(other.step(IngestEvent::Done), IngestAction::Abort(AppError::Storage)));
}

#[test]
fn an_unopenable_archive_starts_no_ingest() {
    assert!(matches!(extract_and_store("Demo", b"PK broken".to_vec()), Err(AppError::Archive)));
    assert!(matches!(Ingest::new("Demo", Vec::new(), 10), Err(AppError::Archive)));
}

#[test]
fn an_uploaded_form_is_ingested_under_its_name() {
    let mut form = UploadForm::new();
    form.part("app_name", b"Toko".to_vec());
    form.part("file", archive(&[("x.txt", Some(b"X"))]));
    let mut ingest = match upload_zip(form) {
        Ok(ingest) => ingest,
        Err(reply) => panic!("unexpected reply {:?}", reply),
    };
    let actions = run(&mut ingest, None);
    assert!(matches!(&actions[1], IngestAction::InsertApplication(name) if name == "Toko"));
    assert!(matches!(&actions[2], IngestAction::InsertFile { file, .. } if file.nama_file == "x.txt"));
}

#[test]
fn the_walk_stages_one_file_at_a_time() {
    let mut walk = ArchiveIngestor::open(sample(), 1).unwrap();
    let first = walk.next_file().unwrap().unwrap();
    assert_eq!(first.full_path, "app/a.txt");
    assert_eq!(first.nama_file, "a.txt");
    assert_eq!(first.folder.as_deref(), Some("app"));
    assert_eq!(first.content_file.as_deref(), Some("A"));
    let second = walk.next_file().unwrap().unwrap();
    assert_eq!(second.full_path, "app/sub/b.txt");
    assert_eq!(second.folder.as_deref(), Some("app/sub"));
    let third = walk.next_file().unwrap().unwrap();
    assert_eq!(third.full_path, "c.txt");
    assert!(walk.next_file().unwrap().is_none());
    assert!(walk.next_file().unwrap().is_none());
}

#[test]
fn entries_without_a_safe_path_are_dropped() {
    let bytes = archive(&[
        ("../escape.txt", Some(b"no")),
        ("ok.txt", Some(b"yes")),
        ("/abs.txt", Some(b"root")),
    ]);
    let files = stage_archive(bytes, MAX_FILE_BYTES).unwrap();
    let paths: Vec<&str> = files.iter().map(|f| f.full_path.as_str()).collect();
    assert!(paths.contains(&"ok.txt"));
    assert!(!paths.iter().any(|p| p.contains("escape")));
}

#[test]
fn content_that_is_no_utf8_is_replaced_not_refused() {
    let bytes = archive(&[("bin.dat", Some(&[b'a', 0xff, b'b'])), ("cut.txt", Some("aé".as_bytes()))]);
    let files = stage_archive(bytes, MAX_FILE_BYTES).unwrap();
    assert_eq!(files[0].content_file.as_deref(), Some("a\u{fffd}b"));
    let cut = stage_archive(
        archive(&[("bin.dat", Some(&[b'a', 0xff, b'b'])), ("cut.txt", Some("aé".as_bytes()))]),
        2,
    )
    .unwrap();
    assert_eq!(cut[0].content_file.as_deref(), Some("a"));
    assert_eq!(cut[1].content_file.as_deref(), Some("a"));
    for f in &cut {
        assert!(f.content_file.as_ref().unwrap().len() <= 2);
    }
}

#[test]
fn a_character_that_straddles_the_cap_is_left_out() {
    let mut text = "x".repeat(MAX_FILE_BYTES - 1);
    text.push('é');
    text.push_str("tail");
    let bytes = archive(&[("wide.txt", Some(text.as_bytes()))]);
    let files = stage_archive(bytes, MAX_FILE_BYTES).unwrap();
    let content = files[0].content_file.as_ref().unwrap();
    assert_eq!(content.len(), MAX_FILE_BYTES - 1);
    assert!(content.chars().all(|c| c == 'x'));
}

fn corrupted() -> Vec<u8> {
    let mut bytes = archive(&[("good.txt", Some(b"fine")), ("bad.txt", Some(b"QQQQQQQQ"))]);
    let at = bytes.windows(8).position(|w| w == b"QQQQQQQQ").unwrap();
    bytes[at] = b'X';
    bytes
}

#[test]
fn an_entry_that_cannot_be_read_fails_the_whole_archive() {
    assert_eq!(stage_archive(corrupted(), MAX_FILE_BYTES).unwrap_err(), AppError::Archive);
    let mut walk = ArchiveIngestor::open(corrupted(), MAX_FILE_BYTES).unwrap();
    assert_eq!(walk.next_file().unwrap().unwrap().full_path, "good.txt");
    assert_eq!(walk.next_file().unwrap_err(), AppError::Archive);
    assert_eq!(walk.next_file().unwrap_err(), AppError::Archive);
}

#[test]
fn an_unreadable_entry_aborts_the_ingest_before_any_commit() {
    let mut ingest = extract_and_store("Demo", corrupted()).unwrap();
    let actions = run(&mut ingest, None);
    assert_eq!(actions.len(), 4);
    assert!(matches!(actions[0], IngestAction::Begin));
    assert!(matches!(actions[1], IngestAction::InsertApplication(_)));
    assert!(matches!(&actions[2], IngestAction::InsertFile { file, .. } if file.full_path == "good.txt"));
    assert!(matches!(actions[3], IngestAction::Abort(AppError::Archive)));
}
