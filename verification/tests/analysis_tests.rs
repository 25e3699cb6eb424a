use codereview::analysis::{
    analysis_page, stored, AnalysisKind, AnalysisRecord, KIND_FUNGSI, KIND_RELASI_DB,
    KIND_RELASI_FILE, UNKNOWN_KIND,
};
use codereview::errors::{AppError, ProviderError};
use codereview::handlers::{analyze_file, Analyze, AnalyzeAction, AnalyzeEvent, FileSource};
use codereview::openai::Transfer;
use codereview::reply::Reply;

fn record(a: Option<&str>, b: Option<&str>, c: Option<&str>) -> AnalysisRecord {
    AnalysisRecord {
        analisa_fungsi: a.map(|s| s.to_string()),
        analisa_relasi_file: b.map(|s| s.to_string()),
        analisa_relasi_db: c.map(|s| s.to_string()),
    }
}

fn copy(r: &AnalysisRecord) -> AnalysisRecord {
    AnalysisRecord {
        analisa_fungsi: r.analisa_fungsi.clone(),
        analisa_relasi_file: r.analisa_relasi_file.clone(),
        analisa_relasi_db: r.analisa_relasi_db.clone(),
    }
}

fn answer(text: &str) -> Transfer {
    let body = format!(
        "{{\"choices\":[{{\"message\":{{\"content\":{}}}}}]}}",
        serde_json::Value::String(text.to_string())
    );
    Transfer::Response { status: 200, body: body.into_bytes() }
}

fn source(content: Option<&str>) -> FileSource {
    FileSource { full_path: "src/a.rs".to_string(), content_file: content.map(|s| s.to_string()) }
}

/// Runs one request against a record in memory and a provider that answers
/// `provider_says`. Gives the text shown, how often the provider was asked, and
/// the record afterwards.
fn serve(
    stored_record: Option<AnalysisRecord>,
    kind: &str,
    force: bool,
    provider_says: &str,
) -> (String, usize, Option<AnalysisRecord>) {
    let mut machine: Analyze = analyze_file(7, kind.to_string(), force, "key".to_string());
    let mut record = stored_record;
    let mut asked = 0usize;
    let mut action = machine.step(AnalyzeEvent::Start);
    for _ in 0..10 {
        let event = match action {
            AnalyzeAction::FetchOwner { file_id } => {
                assert_eq!(file_id, 7);
                AnalyzeEvent::Owner(Ok(3))
            }
            AnalyzeAction::FetchRecord { file_id } => {
                assert_eq!(file_id, 7);
                AnalyzeEvent::Record(Ok(record.as_ref().map(copy)))
            }
            AnalyzeAction::FetchSource { .. } => AnalyzeEvent::Source(Ok(source(Some("CODE")))),
            AnalyzeAction::ReadFile { .. } => AnalyzeEvent::Disk(None),
            AnalyzeAction::Send(_) => {
                asked += 1;
                AnalyzeEvent::Answer(answer(provider_says))
            }
            AnalyzeAction::Upsert { file_id, kind, text } => {
                assert_eq!(file_id, 7);
                record = Some(AnalysisRecord::upsert(record.take(), kind, text));
                AnalyzeEvent::Stored(Ok(()))
            }
            AnalyzeAction::Reply(Reply::Analysis(page)) => return (page.content, asked, record),
            other => panic!("unexpected action {:?}", other),
        };
        action = machine.step(event);
    }
    panic!("the analysis did not end");
}

#[test]
fn kinds_are_parsed_by_name() {
    assert_eq!(AnalysisKind::parse("fungsi"), Some(AnalysisKind::Fungsi));
    assert_eq!(AnalysisKind::parse("relasi_file"), Some(AnalysisKind::RelasiFile));
    assert_eq!(AnalysisKind::parse("relasi_db"), Some(AnalysisKind::RelasiDb));
    assert_eq!(AnalysisKind::parse(KIND_FUNGSI), Some(AnalysisKind::Fungsi));
    assert_eq!(AnalysisKind::parse(KIND_RELASI_FILE), Some(AnalysisKind::RelasiFile));
    assert_eq!(AnalysisKind::parse(KIND_RELASI_DB), Some(AnalysisKind::RelasiDb));
    assert_eq!(AnalysisKind::parse("Fungsi"), None);
    assert_eq!(AnalysisKind::parse(""), None);
    assert_eq!(AnalysisKind::parse("relasi"), None);
}

#[test]
fn each_kind_writes_its_own_column() {
    assert_eq!(
        AnalysisKind::Fungsi.upsert_statement(),
        "INSERT INTO analysis (file_id, analisa_fungsi) VALUES (?, ?) ON DUPLICATE KEY UPDATE analisa_fungsi=VALUES(analisa_fungsi), created_at=CURRENT_TIMESTAMP"
    );
    assert!(AnalysisKind::RelasiFile.upsert_statement().contains("(file_id, analisa_relasi_file)"));
    assert!(AnalysisKind::RelasiFile
        .upsert_statement()
        .contains("UPDATE analisa_relasi_file=VALUES(analisa_relasi_file)"));
    assert!(AnalysisKind::RelasiDb.upsert_statement().contains("(file_id, analisa_relasi_db)"));
    assert!(!AnalysisKind::RelasiDb.upsert_statement().contains("analisa_fungsi"));
}

#[test]
fn each_kind_asks_with_its_own_prompt() {
    let f = AnalysisKind::Fungsi.request("k", "X").unwrap();
    assert_eq!(f.user, "Jelaskan fungsi utama file ini:\nX");
    let r = AnalysisKind::RelasiFile.request("k", "X").unwrap();
    assert_eq!(r.user, "File ini menggunakan/memanggil file lain apa saja? Jelaskan:\nX");
    let d = AnalysisKind::RelasiDb.request("k", "X").unwrap();
    assert_eq!(d.user, "Database apa yang terlibat di file ini? Cari query SQL / koneksi DB:\nX");
    assert_eq!(AnalysisKind::Fungsi.request("", "X").unwrap_err(), AppError::Configuration);
}

#[test]
fn stored_reads_the_field_of_the_kind() {
    let r = record(Some("f"), None, Some("d"));
    assert_eq!(stored(Some(copy(&r)), AnalysisKind::Fungsi).as_deref(), Some("f"));
    assert_eq!(stored(Some(copy(&r)), AnalysisKind::RelasiFile), None);
    assert_eq!(stored(Some(copy(&r)), AnalysisKind::RelasiDb).as_deref(), Some("d"));
    assert_eq!(stored(None, AnalysisKind::Fungsi), None);
}

#[test]
fn upsert_writes_one_field_and_keeps_the_others() {
    let first = AnalysisRecord::upsert(None, AnalysisKind::RelasiFile, "rf".to_string());
    assert_eq!(first.analisa_fungsi, None);
    assert_eq!(first.analisa_relasi_file.as_deref(), Some("rf"));
    assert_eq!(first.analisa_relasi_db, None);
    let second = AnalysisRecord::upsert(Some(first), AnalysisKind::Fungsi, "f".to_string());
    assert_eq!(second.analisa_fungsi.as_deref(), Some("f"));
    assert_eq!(second.analisa_relasi_file.as_deref(), Some("rf"));
    let third = AnalysisRecord::upsert(Some(second), AnalysisKind::RelasiFile, "new".to_string());
    assert_eq!(third.analisa_fungsi.as_deref(), Some("f"));
    assert_eq!(third.analisa_relasi_file.as_deref(), Some("new"));
    assert_eq!(third.analisa_relasi_db, None);
    let empty = AnalysisRecord::empty();
    assert!(empty.analisa_fungsi.is_none() && empty.analisa_relasi_db.is_none());
}

#[test]
fn the_page_links_back_and_to_a_forced_run() {
    let page = analysis_page("relasi_db", 12, -4, "text".to_string());
    assert_eq!(page.title, "Hasil Analisa relasi_db");
    assert_eq!(page.content, "text");
    assert_eq!(page.back_href, "/apps/-4");
    assert_eq!(page.force_href.as_deref(), Some("/analyze/12/relasi_db/force"));
}

#[test]
fn two_requests_without_force_ask_the_provider_once() {
    let (first, asked_first, record) = serve(None, "fungsi", false, "answer one");
    assert_eq!(first, "answer one");
    assert_eq!(asked_first, 1);
    let (second, asked_second, after) = serve(record, "fungsi", false, "answer two");
    assert_eq!(second, "answer one");
    assert_eq!(asked_second, 0);
    assert_eq!(after.unwrap().analisa_fungsi.as_deref(), Some("answer one"));
}

#[test]
fn a_cached_text_is_served_without_the_provider() {
    let (text, asked, after) =
        serve(Some(record(None, Some("kept"), None)), "relasi_file", false, "unused");
    assert_eq!(text, "kept");
    assert_eq!(asked, 0);
    assert_eq!(after.unwrap().analisa_relasi_file.as_deref(), Some("kept"));
}

#[test]
fn a_forced_request_overwrites_only_its_own_field() {
    let before = record(Some("old f"), Some("old rf"), Some("old db"));
    let (text, asked, after) = serve(Some(before), "relasi_file", true, "fresh");
    assert_eq!(text, "fresh");
    assert_eq!(asked, 1);
    let after = after.unwrap();
    assert_eq!(after.analisa_fungsi.as_deref(), Some("old f"));
    assert_eq!(after.analisa_relasi_file.as_deref(), Some("fresh"));
    assert_eq!(after.analisa_relasi_db.as_deref(), Some("old db"));
}

#[test]
fn a_missing_field_of_an_existing_record_is_computed() {
    let (text, asked, after) =
        serve(Some(record(Some("f"), None, None)), "relasi_db", false, "db text");
    assert_eq!(text, "db text");
    assert_eq!(asked, 1);
    let after = after.unwrap();
    assert_eq!(after.analisa_fungsi.as_deref(), Some("f"));
    assert_eq!(after.analisa_relasi_db.as_deref(), Some("db text"));
}

#[test]
fn an_unknown_kind_is_answered_without_provider_or_storage() {
    let mut machine = analyze_file(7, "apa".to_string(), true, "key".to_string());
    assert!(matches!(machine.step(AnalyzeEvent::Start), AnalyzeAction::FetchOwner { file_id: 7 }));
    match machine.step(AnalyzeEvent::Owner(Ok(3))) {
        AnalyzeAction::Reply(Reply::Analysis(page)) => {
            assert_eq!(page.content, UNKNOWN_KIND);
            assert_eq!(page.content, "Jenis analisa tidak dikenal");
            assert_eq!(page.title, "Hasil Analisa apa");
            assert_eq!(page.back_href, "/apps/3");
            assert_eq!(page.force_href.as_deref(), Some("/analyze/7/apa/force"));
        }
        other => panic!("unexpected action {:?}", other),
    }
    assert!(matches!(
        machine.step(AnalyzeEvent::Source(Ok(source(Some("x"))))),
        AnalyzeAction::Reply(Reply::Rejected(_))
    ));
}

#[test]
fn the_source_falls_back_to_the_file_and_then_to_nothing() {
    let mut machine = analyze_file(7, "fungsi".to_string(), true, "key".to_string());
    machine.step(AnalyzeEvent::Start);
    assert!(matches!(
        machine.step(AnalyzeEvent::Owner(Ok(3))),
        AnalyzeAction::FetchSource { file_id: 7 }
    ));
    match machine.step(AnalyzeEvent::Source(Ok(source(None)))) {
        AnalyzeAction::ReadFile { path } => assert_eq!(path, "src/a.rs"),
        other => panic!("unexpected action {:?}", other),
    }
    match machine.step(AnalyzeEvent::Disk(None)) {
        AnalyzeAction::Send(req) => {
            assert_eq!(req.user, "Jelaskan fungsi utama file ini:\n");
            assert_eq!(req.api_key, "key");
        }
        other => panic!("unexpected action {:?}", other),
    }

    let mut from_disk = analyze_file(7, "fungsi".to_string(), true, "key".to_string());
    from_disk.step(AnalyzeEvent::Start);
    from_disk.step(AnalyzeEvent::Owner(Ok(3)));
    from_disk.step(AnalyzeEvent::Source(Ok(source(None))));
    match from_disk.step(AnalyzeEvent::Disk(Some("on disk".to_string()))) {
        AnalyzeAction::Send(req) => assert_eq!(req.user, "Jelaskan fungsi utama file ini:\non disk"),
        other => panic!("unexpected action {:?}", other),
    }
}

#[test]
fn a_failed_provider_writes_nothing() {
    for (transfer, cause) in [
        (Transfer::Failed, ProviderError::Transport),
        (Transfer::Response { status: 500, body: b"{}".to_vec() }, ProviderError::Status(500)),
        (Transfer::Response { status: 200, body: b"oops".to_vec() }, ProviderError::Unparseable),
    ] {
        let mut machine = analyze_file(7, "fungsi".to_string(), false, "key".to_string());
        machine.step(AnalyzeEvent::Start);
        machine.step(AnalyzeEvent::Owner(Ok(3)));
        machine.step(AnalyzeEvent::Record(Ok(None)));
        assert!(matches!(
            machine.step(AnalyzeEvent::Source(Ok(source(Some("c"))))),
            AnalyzeAction::Send(_)
        ));
        match machine.step(AnalyzeEvent::Answer(transfer)) {
            AnalyzeAction::Reply(Reply::Rejected(e)) => assert_eq!(e, AppError::Provider(cause)),
            other => panic!("unexpected action {:?}", other),
        }
        assert!(matches!(
            machine.step(AnalyzeEvent::Stored(Ok(()))),
            AnalyzeAction::Reply(Reply::Rejected(AppError::Storage))
        ));
    }
}

#[test]
fn storage_failures_and_stray_events_reject() {
    let mut a = analyze_file(7, "fungsi".to_string(), false, "key".to_string());
    a.step(AnalyzeEvent::Start);
    assert!(matches!(
        a.step(AnalyzeEvent::Owner(Err(AppError::Storage))),
        AnalyzeAction::Reply(Reply::Rejected(_))
    ));

    let mut b = analyze_file(7, "fungsi".to_string(), false, "key".to_string());
    b.step(AnalyzeEvent::Start);
    b.step(AnalyzeEvent::Owner(Ok(3)));
    assert!(matches!(
        b.step(AnalyzeEvent::Record(Err(AppError::Storage))),
        AnalyzeAction::Reply(Reply::Rejected(_))
    ));

    let mut c = analyze_file(7, "fungsi".to_string(), false, "key".to_string());
    assert!(matches!(
        c.step(AnalyzeEvent::Record(Ok(None))),
        AnalyzeAction::Reply(Reply::Rejected(_))
    ));

    let mut d = analyze_file(7, "fungsi".to_string(), true, "key".to_string());
    d.step(AnalyzeEvent::Start);
    d.step(AnalyzeEvent::Owner(Ok(3)));
    d.step(AnalyzeEvent::Source(Ok(source(Some("c")))));
    match d.step(AnalyzeEvent::Answer(answer("t"))) {
        AnalyzeAction::Upsert { file_id, kind, text } => {
            assert_eq!((file_id, kind, text.as_str()), (7, AnalysisKind::Fungsi, "t"));
        }
        other => panic!("unexpected action {:?}", other),
    }
    assert!(matches!(
        d.step(AnalyzeEvent::Stored(Err(AppError::Storage))),
        AnalyzeAction::Reply(Reply::Rejected(_))
    ));
}

#[test]
fn a_missing_credential_rejects_before_anything_is_sent() {
    let mut machine = analyze_file(7, "fungsi".to_string(), true, String::new());
    machine.step(AnalyzeEvent::Start);
    machine.step(AnalyzeEvent::Owner(Ok(3)));
    assert!(matches!(
        machine.step(AnalyzeEvent::Source(Ok(source(Some("c"))))),
        AnalyzeAction::Reply(Reply::Rejected(AppError::Configuration))
    ));
}
