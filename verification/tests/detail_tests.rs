use codereview::detail::{
    app_analysis_all, app_detail, app_not_found, AllAction, AllEvent, DetailAction, DetailEvent,
};
use codereview::errors::AppError;
use codereview::listing::FileJoinRow;
use codereview::models::{AnalysisJoinRow, AppRow, PageQ};
use codereview::reply::{Reply, Status};

fn app() -> AppRow {
    AppRow { id: 3, nama_aplikasi: "Demo".to_string(), created_at: 1700000000 }
}

fn rows(first: i64, n: i64) -> Vec<FileJoinRow> {
    (first..first + n)
        .map(|id| FileJoinRow {
            id,
            app_id: 3,
            nama_file: format!("f{}.rs", id),
            nama_folder: None,
            full_path: format!("f{}.rs", id),
            json_graph: if id % 2 == 0 { Some("g()".to_string()) } else { None },
            line_count: None,
            analisa_fungsi: Some("does things".to_string()),
            analisa_relasi_file: None,
            analisa_relasi_db: None,
        })
        .collect()
}

#[test]
fn the_listing_asks_for_the_app_the_count_and_the_rows() {
    let q = PageQ { page: Some(99), q: Some("main".to_string()) };
    let mut d = app_detail(3, q);
    assert!(matches!(d.step(DetailEvent::Start), DetailAction::FetchApp { app_id: 3 }));
    match d.step(DetailEvent::App(Ok(Some(app())))) {
        DetailAction::CountFiles { app_id, pattern } => {
            assert_eq!(app_id, 3);
            assert_eq!(pattern.as_deref(), Some("%main%"));
        }
        other => panic!("unexpected action {:?}", other),
    }
    match d.step(DetailEvent::Count(Ok(57))) {
        DetailAction::FetchRows { app_id, pattern, limit, offset } => {
            assert_eq!(app_id, 3);
            assert_eq!(pattern.as_deref(), Some("%main%"));
            assert_eq!(limit, 25);
            assert_eq!(offset, 50);
        }
        other => panic!("unexpected action {:?}", other),
    }
    match d.step(DetailEvent::Rows(Ok(rows(200, 7)))) {
        DetailAction::Reply(Reply::Detail(page)) => {
            assert_eq!(page.app.id, 3);
            assert_eq!(page.app.nama_aplikasi, "Demo");
            assert_eq!(page.search.as_deref(), Some("main"));
            assert_eq!(page.files.len(), 7);
            assert_eq!(page.files[0].row_no, Some(51));
            assert_eq!(page.files[6].row_no, Some(57));
            assert_eq!(page.files[0].id, 200);
            assert!(page.files[0].has_graph);
            assert!(!page.files[1].has_graph);
            assert_eq!(page.files[0].fungsi_preview.as_deref(), Some("does things"));
            assert_eq!(page.pagination.page, 3);
            assert_eq!(page.pagination.total_pages, 3);
            assert_eq!(page.pagination.total_items, 57);
            assert_eq!(page.pagination.from, 51);
            assert_eq!(page.pagination.to, 57);
            assert_eq!(page.pagination.prev, Some(2));
            assert_eq!(page.pagination.next, None);
        }
        other => panic!("unexpected action {:?}", other),
    }
    assert!(matches!(d.step(DetailEvent::Start), DetailAction::Reply(Reply::Rejected(_))));
}

#[test]
fn the_listing_without_a_term_has_no_pattern() {
    let mut d = app_detail(3, PageQ { page: None, q: None });
    d.step(DetailEvent::Start);
    match d.step(DetailEvent::App(Ok(Some(app())))) {
        DetailAction::CountFiles { pattern, .. } => assert_eq!(pattern, None),
        other => panic!("unexpected action {:?}", other),
    }
    match d.step(DetailEvent::Count(Ok(0))) {
        DetailAction::FetchRows { pattern, limit, offset, .. } => {
            assert_eq!(pattern, None);
            assert_eq!((limit, offset), (25, 0));
        }
        other => panic!("unexpected action {:?}", other),
    }
    match d.step(DetailEvent::Rows(Ok(Vec::new()))) {
        DetailAction::Reply(Reply::Detail(page)) => {
            assert!(page.files.is_empty());
            assert_eq!(page.search, None);
            assert_eq!(page.pagination.total_pages, 1);
            assert_eq!(page.pagination.page, 1);
            assert_eq!((page.pagination.from, page.pagination.to), (0, 0));
        }
        other => panic!("unexpected action {:?}", other),
    }
}

#[test]
fn an_unknown_application_is_not_found() {
    let mut d = app_detail(42, PageQ { page: None, q: None });
    d.step(DetailEvent::Start);
    match d.step(DetailEvent::App(Ok(None))) {
        DetailAction::Reply(Reply::Html { status, body }) => {
            assert_eq!(status, Status::NotFound);
            assert_eq!(body, "Aplikasi dengan id 42 tidak ditemukan.");
        }
        other => panic!("unexpected action {:?}", other),
    }
    match app_not_found(-1) {
        Reply::Html { status, body } => {
            assert_eq!(status, Status::NotFound);
            assert_eq!(body, "Aplikasi dengan id -1 tidak ditemukan.");
        }
        other => panic!("unexpected reply {:?}", other),
    }
}

#[test]
fn listing_failures_reject() {
    let mut a = app_detail(3, PageQ { page: None, q: None });
    a.step(DetailEvent::Start);
    assert!(matches!(
        a.step(DetailEvent::App(Err(AppError::Storage))),
        DetailAction::Reply(Reply::Rejected(_))
    ));

    let mut b = app_detail(3, PageQ { page: None, q: None });
    b.step(DetailEvent::Start);
    b.step(DetailEvent::App(Ok(Some(app()))));
    assert!(matches!(
        b.step(DetailEvent::Count(Err(AppError::Storage))),
        DetailAction::Reply(Reply::Rejected(_))
    ));

    let mut c = app_detail(3, PageQ { page: None, q: None });
    c.step(DetailEvent::Start);
    c.step(DetailEvent::App(Ok(Some(app()))));
    c.step(DetailEvent::Count(Ok(5)));
    assert!(matches!(
        c.step(DetailEvent::Rows(Err(AppError::Storage))),
        DetailAction::Reply(Reply::Rejected(_))
    ));

    let mut d = app_detail(3, PageQ { page: None, q: None });
    assert!(matches!(d.step(DetailEvent::Count(Ok(5))), DetailAction::Reply(Reply::Rejected(_))));
}

#[test]
fn all_analyses_are_listed_as_storage_returns_them() {
    let mut a = app_analysis_all(3);
    assert!(matches!(a.step(AllEvent::Start), AllAction::FetchApp { app_id: 3 }));
    assert!(matches!(a.step(AllEvent::App(Ok(Some(app())))), AllAction::FetchRows { app_id: 3 }));
    let joined = vec![
        AnalysisJoinRow {
            file_id: 1,
            nama_file: "a".to_string(),
            full_path: "a".to_string(),
            analisa_fungsi: Some("f".to_string()),
            analisa_relasi_file: None,
            analisa_relasi_db: None,
        },
        AnalysisJoinRow {
            file_id: 2,
            nama_file: "b".to_string(),
            full_path: "x/b".to_string(),
            analisa_fungsi: None,
            analisa_relasi_file: None,
            analisa_relasi_db: Some("d".to_string()),
        },
    ];
    match a.step(AllEvent::Rows(Ok(joined))) {
        AllAction::Reply(Reply::AnalysisAll(page)) => {
            assert_eq!(page.app.id, 3);
            assert_eq!(page.rows.len(), 2);
            assert_eq!(page.rows[0].file_id, 1);
            assert_eq!(page.rows[0].analisa_fungsi.as_deref(), Some("f"));
            assert_eq!(page.rows[1].full_path, "x/b");
            assert_eq!(page.rows[1].analisa_relasi_db.as_deref(), Some("d"));
        }
        other => panic!("unexpected action {:?}", other),
    }
}

#[test]
fn all_analyses_of_an_unknown_application_are_not_found() {
    let mut a = app_analysis_all(8);
    a.step(AllEvent::Start);
    match a.step(AllEvent::App(Ok(None))) {
        AllAction::Reply(Reply::Html { status, body }) => {
            assert_eq!(status, Status::NotFound);
            assert_eq!(body, "Aplikasi dengan id 8 tidak ditemukan.");
        }
        other => panic!("unexpected action {:?}", other),
    }
    let mut b = app_analysis_all(8);
    b.step(AllEvent::Start);
    assert!(matches!(
        b.step(AllEvent::App(Err(AppError::Storage))),
        AllAction::Reply(Reply::Rejected(_))
    ));
    let mut c = app_analysis_all(8);
    c.step(AllEvent::Start);
    c.step(AllEvent::App(Ok(Some(app()))));
    assert!(matches!(
        c.step(AllEvent::Rows(Err(AppError::Storage))),
        AllAction::Reply(Reply::Rejected(_))
    ));
}
