use codereview::analysis::AnalysisRecord;
use codereview::errors::{AppError, ProviderError};
use codereview::handlers::{
    api_get_analysis, api_get_app_summary_full, api_get_app_summary_preview, list_apps,
    upload_page, upload_zip, uploaded, UploadForm,
};
use codereview::models::AppRow;
use codereview::reply::{Reply, Status};

fn record() -> AnalysisRecord {
    AnalysisRecord {
        analisa_fungsi: Some("fungsi text".to_string()),
        analisa_relasi_file: None,
        analisa_relasi_db: Some("db text".to_string()),
    }
}

#[test]
fn the_full_summary_is_returned_as_stored() {
    match api_get_app_summary_full(Ok(Some(Some("all of it".to_string())))) {
        Reply::Content { title, content } => {
            assert_eq!(title, "Ringkasan Aplikasi");
            assert_eq!(content, "all of it");
        }
        other => panic!("unexpected reply {:?}", other),
    }
    match api_get_app_summary_full(Ok(Some(None))) {
        Reply::Content { content, .. } => assert_eq!(content, ""),
        other => panic!("unexpected reply {:?}", other),
    }
}

#[test]
fn a_summary_that_was_never_made_is_not_found() {
    match api_get_app_summary_full(Ok(None)) {
        Reply::Failure { status, error, message } => {
            assert_eq!(status, Status::NotFound);
            assert_eq!(error, "no_summary");
            assert_eq!(
                message,
                "Belum ada summary. Klik 'Summary' atau 'Summary Ulang' untuk membuatnya."
            );
        }
        other => panic!("unexpected reply {:?}", other),
    }
    match api_get_app_summary_preview(Ok(None)) {
        Reply::Failure { status, error, message } => {
            assert_eq!(status, Status::NotFound);
            assert_eq!(error, "no_summary");
            assert_eq!(
                message,
                "Belum ada summary. Klik 'Summary' atau 'Summary Ulang' untuk menghasilkan ringkasan."
            );
        }
        other => panic!("unexpected reply {:?}", other),
    }
}

#[test]
fn a_storage_failure_is_reported_with_its_message() {
    for reply in [
        api_get_app_summary_full(Err("pool timed out".to_string())),
        api_get_app_summary_preview(Err("pool timed out".to_string())),
        api_get_analysis("fungsi", Err("pool timed out".to_string())),
    ] {
        match reply {
            Reply::Failure { status, error, message } => {
                assert_eq!(status, Status::InternalServerError);
                assert_eq!(error, "db_error");
                assert_eq!(message, "pool timed out");
            }
            other => panic!("unexpected reply {:?}", other),
        }
    }
}

#[test]
fn the_summary_preview_holds_fifty_words() {
    let words: Vec<String> = (0..60).map(|i| format!("s{}", i)).collect();
    match api_get_app_summary_preview(Ok(Some(Some(words.join("  "))))) {
        Reply::Content { title, content } => {
            assert_eq!(title, "Ringkasan Aplikasi");
            assert_eq!(content, format!("{} \u{2026}", words[..50].join(" ")));
        }
        other => panic!("unexpected reply {:?}", other),
    }
    match api_get_app_summary_preview(Ok(Some(None))) {
        Reply::Content { content, .. } => assert_eq!(content, ""),
        other => panic!("unexpected reply {:?}", other),
    }
}

#[test]
fn the_upload_page_carries_nothing() {
    assert!(matches!(upload_page(), Reply::Upload(_)));
}

#[test]
fn applications_are_listed_with_their_serialisation() {
    let rows = vec![
        AppRow { id: 2, nama_aplikasi: "B".to_string(), created_at: 20 },
        AppRow { id: 1, nama_aplikasi: "A".to_string(), created_at: 10 },
    ];
    match list_apps(Ok((rows, Some("[{\"id\":2},{\"id\":1}]".to_string())))) {
        Reply::Index(page) => {
            assert_eq!(page.apps.len(), 2);
            assert_eq!(page.apps[0].id, 2);
            assert_eq!(page.apps[1].nama_aplikasi, "A");
            assert_eq!(page.json, "[{\"id\":2},{\"id\":1}]");
        }
        other => panic!("unexpected reply {:?}", other),
    }
    match list_apps(Ok((Vec::new(), None))) {
        Reply::Index(page) => {
            assert!(page.apps.is_empty());
            assert_eq!(page.json, "[]");
        }
        other => panic!("unexpected reply {:?}", other),
    }
}

#[test]
fn a_failed_listing_shows_the_message() {
    match list_apps(Err("access denied".to_string())) {
        Reply::Html { status, body } => {
            assert_eq!(status, Status::Success);
            assert_eq!(
                body,
                "<h3>DB error</h3><pre>access denied</pre><p>Cek DATABASE_URL / DB & tabel.</p>"
            );
        }
        other => panic!("unexpected reply {:?}", other),
    }
}

#[test]
fn a_cached_analysis_is_read_by_kind() {
    let cases = [
        ("fungsi", "Analisa Fungsi", "fungsi text"),
        ("relasi_file", "Relasi File", "Belum ada hasil."),
        ("relasi_db", "Relasi DB", "db text"),
        ("other", "Tidak dikenal", "Jenis analisa tidak dikenal"),
    ];
    for (kind, want_title, want_content) in cases {
        match api_get_analysis(kind, Ok(Some(record()))) {
            Reply::Content { title, content } => {
                assert_eq!(title, want_title);
                assert_eq!(content, want_content);
            }
            other => panic!("unexpected reply {:?}", other),
        }
    }
    for kind in ["fungsi", "other"] {
        match api_get_analysis(kind, Ok(None)) {
            Reply::Content { title, content } => {
                assert_eq!(title, "Belum dianalisis");
                assert_eq!(content, "Belum ada hasil. Jalankan analisa terlebih dahulu.");
            }
            other => panic!("unexpected reply {:?}", other),
        }
    }
}

#[test]
fn the_form_reads_the_name_and_the_archive() {
    let mut form = UploadForm::new();
    assert_eq!(form.app_name, "MyApp");
    assert_eq!(form.archive, None);
    form.part("ignored", b"x".to_vec());
    assert_eq!(form.app_name, "MyApp");
    assert_eq!(form.archive, None);
    form.part("app_name", "Toko Kué".as_bytes().to_vec());
    assert_eq!(form.app_name, "Toko Kué");
    form.part("file", vec![1, 2, 3]);
    assert_eq!(form.archive, Some(vec![1, 2, 3]));
    form.part("app_name", vec![0xff, 0xfe]);
    assert_eq!(form.app_name, "MyApp");
    form.part("app_name", Vec::new());
    assert_eq!(form.app_name, "");
    form.part("file", vec![9]);
    assert_eq!(form.archive, Some(vec![9]));
}

#[test]
fn an_upload_without_a_readable_archive_is_rejected() {
    assert!(matches!(upload_zip(UploadForm::new()), Err(Reply::Rejected(AppError::Archive))));
    let mut form = UploadForm::new();
    form.part("file", b"garbage".to_vec());
    assert!(matches!(upload_zip(form), Err(Reply::Rejected(AppError::Archive))));
}

#[test]
fn a_stored_upload_redirects_to_its_application() {
    match uploaded(17) {
        Reply::Redirect { location } => assert_eq!(location, "/apps/17"),
        other => panic!("unexpected reply {:?}", other),
    }
}

#[test]
fn every_error_has_its_own_message() {
    let all = [
        AppError::Archive,
        AppError::Storage,
        AppError::Provider(ProviderError::Transport),
        AppError::Provider(ProviderError::Status(500)),
        AppError::Provider(ProviderError::Unparseable),
        AppError::Configuration,
    ];
    let messages: Vec<String> = all.iter().map(|e| e.message()).collect();
    assert_eq!(messages[0], "archive: cannot be opened or read");
    assert_eq!(messages[1], "storage: statement or connection failed");
    assert_eq!(messages[2], "provider: request failed");
    assert_eq!(messages[3], "provider: request refused");
    assert_eq!(messages[4], "provider: reply is not JSON");
    assert_eq!(messages[5], "configuration: OPENAI_API_KEY is empty");
}
