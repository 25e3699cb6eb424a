use codereview::errors::{AppError, ProviderError};
use codereview::openai::{
    analisa_file, analisa_fungsi, analisa_relasi_db, analisa_relasi_file, call_chatgpt, content_of,
    extract_code_block, generate_graph_js, graph_script, reply_text, summary_app, Transfer,
    ENDPOINT, GRAPH_PROMPT, MODEL, SYSTEM_PROMPT,
};

fn response(status: u16, body: &str) -> Transfer {
    Transfer::Response { status, body: body.as_bytes().to_vec() }
}

#[test]
fn a_request_carries_the_credential_the_model_and_both_messages() {
    let req = call_chatgpt("key-1", "hello").unwrap();
    assert_eq!(req.api_key, "key-1");
    assert_eq!(req.model, MODEL);
    assert_eq!(req.system, SYSTEM_PROMPT);
    assert_eq!(req.user, "hello");
    assert_eq!(ENDPOINT, "https://api.openai.com/v1/chat/completions");
}

#[test]
fn an_empty_credential_is_a_configuration_error() {
    assert_eq!(call_chatgpt("", "hello").unwrap_err(), AppError::Configuration);
    assert_eq!(analisa_fungsi("", "x").unwrap_err(), AppError::Configuration);
    assert_eq!(analisa_relasi_file("", "x").unwrap_err(), AppError::Configuration);
    assert_eq!(analisa_relasi_db("", "x").unwrap_err(), AppError::Configuration);
    assert_eq!(analisa_file("", "x").unwrap_err(), AppError::Configuration);
    assert_eq!(summary_app("", "x").unwrap_err(), AppError::Configuration);
    assert_eq!(generate_graph_js("", "x").unwrap_err(), AppError::Configuration);
}

#[test]
fn each_analysis_has_its_own_prompt() {
    assert_eq!(
        analisa_fungsi("k", "fn a() {}").unwrap().user,
        "Jelaskan fungsi utama file ini:\nfn a() {}"
    );
    assert_eq!(
        analisa_relasi_file("k", "CODE").unwrap().user,
        "File ini menggunakan/memanggil file lain apa saja? Jelaskan:\nCODE"
    );
    assert_eq!(
        analisa_relasi_db("k", "CODE").unwrap().user,
        "Database apa yang terlibat di file ini? Cari query SQL / koneksi DB:\nCODE"
    );
    assert_eq!(analisa_file("k", "CODE").unwrap().user, "Analisa file berikut:\nCODE");
    assert_eq!(
        summary_app("k", "PAYLOAD").unwrap().user,
        "Analisa payload aplikasi berikut dan buat ringkasan:\n1) hitung jumlah file; 2) sebutkan tabel & field database; 3) identifikasi file paling core/vital; 4) ringkas arsitektur.\n\nPAYLOAD"
    );
}

#[test]
fn the_graph_prompt_asks_for_a_fenced_script() {
    let user = generate_graph_js("k", "CODE").unwrap().user;
    assert!(user.starts_with("Jelaskan lengkap detail dan buat kode JavaScript (tanpa tag HTML, head, dan body) untuk menggambar diagram graph menggunakan vis-network.\nPada node,"));
    assert!(user.contains("   var options = {\n       width: '100%',\n       interaction: {\n"));
    assert!(user.contains("               to: { enabled: true, scaleFactor: 1 },\n"));
    assert!(user.contains("Gunakan tag ```javascript untuk kode JavaScript.\nPastikan width=100%.\n\n"));
    assert!(user.ends_with("Basiskan diagram pada file berikut:\nCODE"));
    assert_eq!(user.len(), GRAPH_PROMPT.len() + 4);
    assert_eq!(GRAPH_PROMPT.chars().count(), 809);
}

#[test]
fn the_text_of_a_reply_is_the_content_of_its_first_choice() {
    let body = r#"{"id":"x","choices":[{"index":0,"message":{"role":"assistant","content":"Halo dunia"}},{"message":{"content":"second"}}]}"#;
    assert_eq!(reply_text(&response(200, body)).unwrap(), "Halo dunia");
    assert_eq!(reply_text(&response(299, body)).unwrap(), "Halo dunia");
}

#[test]
fn a_reply_without_the_content_path_is_empty() {
    for body in [
        r#"{}"#,
        r#"{"choices":[]}"#,
        r#"{"choices":{"0":{"message":{"content":"no array"}}}}"#,
        r#"{"choices":[{"message":{}}]}"#,
        r#"{"choices":[{"message":{"content":12}}]}"#,
        r#"{"choices":[{"message":{"content":null}}]}"#,
        r#"{"choices":[{"text":"old style"}]}"#,
        r#"{"choices":"none"}"#,
        r#"[1,2,3]"#,
        r#""just a string""#,
        r#"null"#,
    ] {
        assert_eq!(reply_text(&response(200, body)).unwrap(), "", "{}", body);
    }
}

#[test]
fn a_body_that_is_no_json_is_unparseable() {
    for body in ["", "not json", "{\"choices\":", "{} trailing"] {
        assert_eq!(
            reply_text(&response(200, body)).unwrap_err(),
            AppError::Provider(ProviderError::Unparseable),
            "{}",
            body
        );
    }
}

#[test]
fn a_status_without_success_fails_whatever_the_body() {
    let body = r#"{"choices":[{"message":{"content":"ignored"}}]}"#;
    for status in [199u16, 300, 401, 404, 429, 500] {
        assert_eq!(
            reply_text(&response(status, body)).unwrap_err(),
            AppError::Provider(ProviderError::Status(status))
        );
    }
}

#[test]
fn a_failed_transfer_is_a_transport_error() {
    assert_eq!(
        reply_text(&Transfer::Failed).unwrap_err(),
        AppError::Provider(ProviderError::Transport)
    );
}

#[test]
fn content_is_read_from_a_parsed_value() {
    let value: serde_json::Value =
        serde_json::from_str(r#"{"choices":[{"message":{"content":"a\nb é"}}]}"#).unwrap();
    assert_eq!(content_of(&value), "a\nb é");
    let other: serde_json::Value = serde_json::from_str(r#"{"choices":[7]}"#).unwrap();
    assert_eq!(content_of(&other), "");
}

#[test]
fn a_fenced_block_gives_only_its_interior() {
    let raw = "Here you go:\n```javascript\nvar a = 1;\nvar b = 2;\n```\nDone.";
    assert_eq!(extract_code_block(raw), Some("var a = 1;\nvar b = 2;\n".to_string()));
    let short = "x ```js\nlet n;\n``` y";
    assert_eq!(extract_code_block(short), Some("let n;\n".to_string()));
    assert_eq!(graph_script(raw.to_string()), "var a = 1;\nvar b = 2;\n");
}

#[test]
fn a_text_without_a_block_is_kept_whole() {
    for raw in ["", "no fences here", "```\nplain fence\n```", "```python\nprint(1)\n```"] {
        assert_eq!(extract_code_block(raw), None, "{}", raw);
        assert_eq!(graph_script(raw.to_string()), raw);
    }
}

#[test]
fn a_block_needs_a_line_end_and_a_closing_fence() {
    assert_eq!(extract_code_block("```javascript var a;```"), None);
    assert_eq!(extract_code_block("```javascript\nvar a;"), None);
    assert_eq!(graph_script("```javascript\nvar a;".to_string()), "```javascript\nvar a;");
    assert_eq!(extract_code_block("```javascript\n```"), Some(String::new()));
    assert_eq!(extract_code_block("```javascript extra\nA```B```"), Some("A".to_string()));
}

#[test]
fn the_long_fence_is_preferred_wherever_it_stands() {
    let raw = "```js\nshort\n```\n```javascript\nlong\n```";
    assert_eq!(extract_code_block(raw), Some("long\n".to_string()));
    let unicode = "é ```js\nπ = 3;\n``` é";
    assert_eq!(extract_code_block(unicode), Some("π = 3;\n".to_string()));
}
