use codereview::errors::AppError;
use codereview::handlers::{api_recover, handle_rejection};
use codereview::query::{page_query, parse_page, parse_unsigned, port, DEFAULT_PORT};
use codereview::reply::{Reply, Status};

#[test]
fn numbers_are_read_as_the_standard_library_reads_them() {
    for text in [
        "0", "1", "7", "10", "042", "+5", "99", "65535", "65536", "4294967295",
        "18446744073709551615", "18446744073709551616", "99999999999999999999999", "", "+", "-",
        "-1", "+-1", "++1", " 1", "1 ", "1a", "a1", "１２", "1_000", "0x10", "1.0",
    ] {
        assert_eq!(parse_unsigned(text, u64::MAX), text.parse::<u64>().ok(), "{:?}", text);
        assert_eq!(parse_page(text), text.parse::<usize>().ok(), "{:?}", text);
        assert_eq!(
            parse_unsigned(text, u16::MAX as u64),
            text.parse::<u16>().ok().map(|n| n as u64),
            "{:?}",
            text
        );
    }
}

#[test]
fn numbers_above_the_bound_are_refused() {
    assert_eq!(parse_unsigned("10", 10), Some(10));
    assert_eq!(parse_unsigned("11", 10), None);
    assert_eq!(parse_unsigned("100", 10), None);
    assert_eq!(parse_unsigned("0", 0), Some(0));
    assert_eq!(parse_unsigned("1", 0), None);
    assert_eq!(parse_unsigned("0000", 0), Some(0));
}

#[test]
fn a_page_that_writes_no_number_counts_as_not_given() {
    let q = page_query(Some("3"), Some("main".to_string()));
    assert_eq!(q.page, Some(3));
    assert_eq!(q.q.as_deref(), Some("main"));
    assert_eq!(page_query(Some("abc"), None).page, None);
    assert_eq!(page_query(Some("-2"), None).page, None);
    assert_eq!(page_query(Some(""), None).page, None);
    assert_eq!(page_query(None, None).page, None);
    assert_eq!(page_query(None, None).q, None);
    assert_eq!(page_query(Some("0"), None).page, Some(0));
}

#[test]
fn the_port_falls_back_to_the_default() {
    assert_eq!(port(None), 8080);
    assert_eq!(port(Some("3000")), 3000);
    assert_eq!(port(Some("65535")), 65535);
    assert_eq!(port(Some("65536")), 8080);
    assert_eq!(port(Some("http")), 8080);
    assert_eq!(port(Some("")), 8080);
    assert_eq!(port(Some("0")), 0);
    assert_eq!(DEFAULT_PORT, 8080);
}

#[test]
fn rejections_hide_the_cause() {
    match handle_rejection(None) {
        Reply::Html { status, body } => {
            assert_eq!(status, Status::InternalServerError);
            assert_eq!(body, "Terjadi kesalahan di server (lihat log).");
        }
        other => panic!("unexpected reply {:?}", other),
    }
    match handle_rejection(Some(AppError::Configuration)) {
        Reply::Html { status, body } => {
            assert_eq!(status, Status::InternalServerError);
            assert_eq!(
                body,
                "Terjadi kesalahan di server (lihat log). configuration: OPENAI_API_KEY is empty"
            );
        }
        other => panic!("unexpected reply {:?}", other),
    }
    match handle_rejection(Some(AppError::Storage)) {
        Reply::Html { body, .. } => assert_eq!(
            body,
            "Terjadi kesalahan di server (lihat log). storage: statement or connection failed"
        ),
        other => panic!("unexpected reply {:?}", other),
    }
    match api_recover() {
        Reply::Failure { status, error, message } => {
            assert_eq!(status, Status::InternalServerError);
            assert_eq!(error, "rejected");
            assert_eq!(message, "Terjadi kesalahan di server (api).");
        }
        other => panic!("unexpected reply {:?}", other),
    }
}
