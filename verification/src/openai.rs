//! Requests to the analysis provider and what its replies hold.
//!
//! Nothing here talks to the network. Each analysis gives the request to send;
//! `reply_text` reads the text out of what came back.

use vstd::prelude::*;
use vstd::string::StringExecFns;
use crate::errors::{AppError, ProviderError};
use crate::json::{items, json_document, member, parse, text, tree_member, JsonTree};
use crate::models::text_result;
use crate::text::{
    chars_of, find_from, first_occurrence, lemma_first_occurrence_absent,
    lemma_first_occurrence_found, occurs_at, string_of_range,
};

verus! {

/// Where chat completions are asked for.
pub const ENDPOINT: &'static str = "https://api.openai.com/v1/chat/completions";

/// The model that answers.
pub const MODEL: &'static str = "gpt-5";

/// The system message of every request.
pub const SYSTEM_PROMPT: &'static str = "Anda adalah analis kode profesional.";

/// What stands before the source text when the function summary is asked
/// for.
pub const FUNGSI_PROMPT: &'static str = "Jelaskan fungsi utama file ini:\n";

/// What stands before the source text when the file relations are asked for.
pub const RELASI_FILE_PROMPT: &'static str = "File ini menggunakan/memanggil file lain apa saja? Jelaskan:\n";

/// What stands before the source text when the database relations are asked
/// for.
pub const RELASI_DB_PROMPT: &'static str = "Database apa yang terlibat di file ini? Cari query SQL / koneksi DB:\n";

/// What stands before the source text when a general analysis is asked for.
pub const FILE_PROMPT: &'static str = "Analisa file berikut:\n";

/// What stands before the payload when the summary of an application is
/// asked for.
pub const SUMMARY_PROMPT: &'static str = "Analisa payload aplikasi berikut dan buat ringkasan:\n1) hitung jumlah file; 2) sebutkan tabel & field database; 3) identifikasi file paling core/vital; 4) ringkas arsitektur.\n\n";

/// What stands before the source text when a graph script is asked for.
pub const GRAPH_PROMPT: &'static str = "Jelaskan lengkap detail dan buat kode JavaScript (tanpa tag HTML, head, dan body) untuk menggambar diagram graph menggunakan vis-network.\nPada node, sebutkan semua actor yang terlibat.\nPada edges, sebutkan semua event dan atribut. Tambahkan arrow bila ada.\n   var options = {\n       width: '100%',\n       interaction: {\n           dragNodes: true,\n           dragView: true,\n           zoomView: true\n       },\n       physics: false,\n       edges: {\n           arrows: {\n               to: { enabled: true, scaleFactor: 1 },\n               from: { enabled: false }\n           }\n       }\n   };\n\nBerikan new line bila info lebih dari 2 kata.\n\nGunakan div dengan id `mynetwork` yang sudah ada di halaman.\nGunakan tag ```javascript untuk kode JavaScript.\nPastikan width=100%.\n\nBasiskan diagram pada file berikut:\n";

/// The fence that opens a block of JavaScript.
pub const FENCE_JAVASCRIPT: &'static str = "```javascript";

/// The short spelling of the opening fence.
pub const FENCE_JS: &'static str = "```js";

/// The fence that closes a block.
pub const FENCE: &'static str = "```";

/// One chat completion to ask for: the credential, the model, and the system
/// and user messages.
#[derive(Debug)]
pub struct ChatRequest {
    pub api_key: String,
    pub model: String,
    pub system: String,
    pub user: String,
}

/// `ChatRequest` as contracts see it: the same fields, with each string as the
/// sequence of its characters.
pub struct ChatRequestView {
    pub api_key: Seq<char>,
    pub model: Seq<char>,
    pub system: Seq<char>,
    pub user: Seq<char>,
}

impl View for ChatRequest {
    type V = ChatRequestView;

    open spec fn view(&self) -> ChatRequestView {
        ChatRequestView {
            api_key: self.api_key@,
            model: self.model@,
            system: self.system@,
            user: self.user@,
        }
    }
}

/// How sending a request ended.
#[derive(Debug)]
pub enum Transfer {
    /// Nothing came back.
    Failed,
    /// A response came back, with this status and body.
    Response { status: u16, body: Vec<u8> },
}

/// The request that carries `prompt`, or the refusal of an empty credential.
pub open spec fn request_of(api_key: Seq<char>, prompt: Seq<char>) -> Result<ChatRequestView, AppError> {
    if api_key.len() == 0 {
        Err(AppError::Configuration)
    } else {
        Ok(ChatRequestView { api_key, model: MODEL@, system: SYSTEM_PROMPT@, user: prompt })
    }
}

/// The view of a request that may have been refused.
pub open spec fn request_result(r: Result<ChatRequest, AppError>) -> Result<ChatRequestView, AppError> {
    match r {
        Ok(req) => Ok(req@),
        Err(e) => Err(e),
    }
}

/// The text of a reply: the string under `choices[0].message.content`, and
/// the empty string wherever that path leads to nothing or to no string.
pub open spec fn reply_content(t: JsonTree) -> Seq<char> {
    match tree_member(t, "choices"@) {
        Some(JsonTree::List(choices)) => if choices.len() > 0 {
            match tree_member(choices[0], "message"@) {
                Some(message) => match tree_member(message, "content"@) {
                    Some(JsonTree::Text(s)) => s,
                    _ => Seq::empty(),
                },
                None => Seq::empty(),
            }
        } else {
            Seq::empty()
        },
        _ => Seq::empty(),
    }
}

/// Whether a status reports success.
pub open spec fn is_success(status: u16) -> bool {
    200 <= status <= 299
}

/// What a transfer yields: the text of the reply, or why there is none.
pub open spec fn reply_of(transfer: Transfer) -> Result<Seq<char>, AppError> {
    match transfer {
        Transfer::Failed => Err(AppError::Provider(ProviderError::Transport)),
        Transfer::Response { status, body } => if !is_success(status) {
            Err(AppError::Provider(ProviderError::Status(status)))
        } else {
            match json_document(body@) {
                Some(t) => Ok(reply_content(t)),
                None => Err(AppError::Provider(ProviderError::Unparseable)),
            }
        },
    }
}

/// The interior of the first fenced block of JavaScript in `s`.
///
/// The block opens at the first `FENCE_JAVASCRIPT`, or where there is none at
/// the first `FENCE_JS`. Its interior starts behind the end of that line and
/// ends before the next `FENCE`. There is no block where the opening fence,
/// the line end behind it or the closing fence is missing.
pub open spec fn code_block(s: Seq<char>) -> Option<Seq<char>> {
    let opening = match first_occurrence(s, FENCE_JAVASCRIPT@) {
        Some(i) => Some(i),
        None => first_occurrence(s, FENCE_JS@),
    };
    match opening {
        None => None,
        Some(start) => match first_occurrence(s.skip(start), seq!['\n']) {
            None => None,
            Some(eol) => {
                let interior = s.skip(start + eol + 1);
                match first_occurrence(interior, FENCE@) {
                    None => None,
                    Some(end) => Some(interior.take(end)),
                }
            },
        },
    }
}

/// The script kept from a reply: the interior of its code block, or the whole
/// reply where it has none.
pub open spec fn script_of(raw: Seq<char>) -> Seq<char> {
    match code_block(raw) {
        Some(block) => block,
        None => raw,
    }
}

/// `head` followed by `tail`.
fn prefixed(head: &str, tail: &str) -> (s: String)
    ensures
        s@ == head@ + tail@,
{
    let mut s = head.to_owned();
    s.append(tail);
    s
}

/// The request that asks the provider to answer `prompt`.
///
/// An empty credential is refused before anything is sent.
pub fn call_chatgpt(api_key: &str, prompt: &str) -> (r: Result<ChatRequest, AppError>)
    ensures
        request_result(r) == request_of(api_key@, prompt@),
{
    if api_key.is_empty() {
        return Err(AppError::Configuration);
    }
    Ok(
        ChatRequest {
            api_key: api_key.to_owned(),
            model: MODEL.to_owned(),
            system: SYSTEM_PROMPT.to_owned(),
            user: prompt.to_owned(),
        },
    )
}

/// The request for the function summary of the source text `kode`.
pub fn analisa_fungsi(api_key: &str, kode: &str) -> (r: Result<ChatRequest, AppError>)
    ensures
        request_result(r) == request_of(api_key@, FUNGSI_PROMPT@ + kode@),
{
    let prompt = prefixed(FUNGSI_PROMPT, kode);
    call_chatgpt(api_key, prompt.as_str())
}

/// The request for the summary of the files that `kode` uses or calls.
pub fn analisa_relasi_file(api_key: &str, kode: &str) -> (r: Result<ChatRequest, AppError>)
    ensures
        request_result(r) == request_of(api_key@, RELASI_FILE_PROMPT@ + kode@),
{
    let prompt = prefixed(RELASI_FILE_PROMPT, kode);
    call_chatgpt(api_key, prompt.as_str())
}

/// The request for the summary of the databases that `kode` touches.
pub fn analisa_relasi_db(api_key: &str, kode: &str) -> (r: Result<ChatRequest, AppError>)
    ensures
        request_result(r) == request_of(api_key@, RELASI_DB_PROMPT@ + kode@),
{
    let prompt = prefixed(RELASI_DB_PROMPT, kode);
    call_chatgpt(api_key, prompt.as_str())
}

/// The request for a general analysis of `kode`.
pub fn analisa_file(api_key: &str, kode: &str) -> (r: Result<ChatRequest, AppError>)
    ensures
        request_result(r) == request_of(api_key@, FILE_PROMPT@ + kode@),
{
    let prompt = prefixed(FILE_PROMPT, kode);
    call_chatgpt(api_key, prompt.as_str())
}

/// The request for the summary of a whole application, described by `payload`.
pub fn summary_app(api: &str, payload: &str) -> (r: Result<ChatRequest, AppError>)
    ensures
        request_result(r) == request_of(api@, SUMMARY_PROMPT@ + payload@),
{
    let prompt = prefixed(SUMMARY_PROMPT, payload);
    call_chatgpt(api, prompt.as_str())
}

/// The request for a graph script drawn from the source text `kode`.
pub fn generate_graph_js(api_key: &str, kode: &str) -> (r: Result<ChatRequest, AppError>)
    ensures
        request_result(r) == request_of(api_key@, GRAPH_PROMPT@ + kode@),
{
    let prompt = prefixed(GRAPH_PROMPT, kode);
    call_chatgpt(api_key, prompt.as_str())
}

/// The text under `choices[0].message.content` of a parsed reply.
pub fn content_of(reply: &serde_json::Value) -> (s: String)
    ensures
        s@ == reply_content(crate::json::json_tree(*reply)),
{
    let choices = match member(reply, "choices") {
        Some(c) => c,
        None => { return String::new(); },
    };
    let list = match items(choices) {
        Some(l) => l,
        None => { return String::new(); },
    };
    if list.len() == 0 {
        return String::new();
    }
    let message = match member(&list[0], "message") {
        Some(m) => m,
        None => { return String::new(); },
    };
    let content = match member(message, "content") {
        Some(c) => c,
        None => { return String::new(); },
    };
    match text(content) {
        Some(s) => s.to_owned(),
        None => String::new(),
    }
}

/// The text that the provider returned, or why there is none: the transfer
/// failed, the status reports no success, or the body is no JSON document.
pub fn reply_text(transfer: &Transfer) -> (r: Result<String, AppError>)
    ensures
        text_result(r) == reply_of(*transfer),
{
    match transfer {
        Transfer::Failed => Err(AppError::Provider(ProviderError::Transport)),
        Transfer::Response { status, body } => {
            if *status < 200 || *status > 299 {
                return Err(AppError::Provider(ProviderError::Status(*status)));
            }
            match parse(body.as_slice()) {
                Ok(v) => Ok(content_of(&v)),
                Err(_) => Err(AppError::Provider(ProviderError::Unparseable)),
            }
        },
    }
}

/// The interior of the first fenced block of JavaScript in `s`, if there is
/// one.
pub fn extract_code_block(s: &str) -> (r: Option<String>)
    ensures
        match r {
            Some(block) => code_block(s@) == Some(block@),
            None => code_block(s@) is None,
        },
{
    let v = chars_of(s);
    let start_tag = chars_of(FENCE_JAVASCRIPT);
    let alt_start = chars_of(FENCE_JS);
    let backticks = chars_of(FENCE);
    let mut newline: Vec<char> = Vec::new();
    newline.push('\n');
    proof {
        assert(newline@ =~= seq!['\n']);
        assert(v@.skip(0) =~= v@);
    }
    let opening = match find_from(&v, 0, &start_tag) {
        Some(i) => Some(i),
        None => find_from(&v, 0, &alt_start),
    };
    let start = match opening {
        Some(i) => i,
        None => { return None; },
    };
    let eol = match find_from(&v, start, &newline) {
        Some(i) => i,
        None => { return None; },
    };
    let from = start + eol + 1;
    proof {
        assert(v@.skip(start as int).skip(eol + 1) =~= v@.skip(from as int));
    }
    let end = match find_from(&v, from, &backticks) {
        Some(i) => i,
        None => { return None; },
    };
    proof {
        assert(v@.skip(from as int).take(end as int) =~= v@.subrange(from as int, from + end));
    }
    Some(string_of_range(&v, from, from + end))
}

/// The script to keep from the provider's reply to a graph request.
pub fn graph_script(raw: String) -> (js: String)
    ensures
        js@ == script_of(raw@),
{
    match extract_code_block(raw.as_str()) {
        Some(block) => block,
        None => raw,
    }
}

/// A text without any fence has no code block, so it is kept whole.
pub proof fn lemma_no_fence_no_block(s: Seq<char>)
    requires
        forall|i: int| !occurs_at(s, FENCE@, i),
    ensures
        code_block(s) is None,
        script_of(s) == s,
{
    reveal_strlit("```");
    reveal_strlit("```js");
    reveal_strlit("```javascript");
    assert forall|i: int| !occurs_at(s, FENCE_JAVASCRIPT@, i) by {
        if occurs_at(s, FENCE_JAVASCRIPT@, i) {
            let found = s.subrange(i, i + FENCE_JAVASCRIPT@.len());
            assert(s.subrange(i, i + 3) =~= found.subrange(0, 3));
            assert(found.subrange(0, 3) =~= FENCE@);
            assert(occurs_at(s, FENCE@, i));
        }
    }
    assert forall|i: int| !occurs_at(s, FENCE_JS@, i) by {
        if occurs_at(s, FENCE_JS@, i) {
            let found = s.subrange(i, i + FENCE_JS@.len());
            assert(s.subrange(i, i + 3) =~= found.subrange(0, 3));
            assert(found.subrange(0, 3) =~= FENCE@);
            assert(occurs_at(s, FENCE@, i));
        }
    }
    lemma_first_occurrence_absent(s, FENCE_JAVASCRIPT@);
    lemma_first_occurrence_absent(s, FENCE_JS@);
}

/// Whether `s` holds no backtick.
pub open spec fn no_backtick(s: Seq<char>) -> bool {
    forall|i: int| 0 <= i < s.len() ==> s[i] != '`'
}

/// A pattern that starts with a backtick stands nowhere in a text that starts
/// with `clean`, a run without backticks, before the end of that run.
proof fn lemma_not_before(clean: Seq<char>, rest: Seq<char>, pat: Seq<char>, i: int)
    requires
        no_backtick(clean),
        pat.len() > 0,
        pat[0] == '`',
        0 <= i < clean.len(),
    ensures
        !occurs_at(clean + rest, pat, i),
{
    let s = clean + rest;
    if occurs_at(s, pat, i) {
        assert(s.subrange(i, i + pat.len())[0] == s[i]);
        assert(s[i] == clean[i]);
    }
}

/// The interior of a fenced block is what is kept of it. Where the text
/// before the opening fence holds no backtick, the rest of the opening line
/// holds no line end, and the interior holds no backtick, the block of
/// `before`, the fence, `info`, a line end, `interior`, the closing fence and
/// `after` is `interior`.
pub proof fn lemma_block_interior(
    before: Seq<char>,
    info: Seq<char>,
    interior: Seq<char>,
    after: Seq<char>,
)
    requires
        no_backtick(before),
        forall|i: int| 0 <= i < info.len() ==> info[i] != '\n',
        no_backtick(interior),
    ensures
        code_block(before + FENCE_JAVASCRIPT@ + info + seq!['\n'] + interior + FENCE@ + after)
            == Some(interior),
        script_of(before + FENCE_JAVASCRIPT@ + info + seq!['\n'] + interior + FENCE@ + after)
            == interior,
{
    reveal_strlit("```");
    reveal_strlit("```javascript");
    let open = FENCE_JAVASCRIPT@;
    let close = FENCE@;
    let eol = seq!['\n'];
    let s = before + open + info + eol + interior + close + after;
    let start = before.len() as int;
    let line = open + info + eol + interior + close + after;
    assert(s =~= before + line);

    assert(s.subrange(start, start + open.len()) =~= open);
    assert forall|j: int| 0 <= j < start implies !occurs_at(s, open, j) by {
        lemma_not_before(before, line, open, j);
    }
    lemma_first_occurrence_found(s, open, start);

    let opened = s.skip(start);
    assert(opened =~= line);
    let at_eol = (open.len() + info.len()) as int;
    assert(opened.subrange(at_eol, at_eol + 1) =~= eol);
    assert forall|j: int| 0 <= j < at_eol implies !occurs_at(opened, eol, j) by {
        if occurs_at(opened, eol, j) {
            assert(opened.subrange(j, j + 1)[0] == opened[j]);
            if j < open.len() {
                assert(opened[j] == open[j]);
            } else {
                assert(opened[j] == info[j - open.len()]);
            }
        }
    }
    lemma_first_occurrence_found(opened, eol, at_eol);

    let body = s.skip(start + at_eol + 1);
    let rest = close + after;
    assert(body =~= interior + rest);
    let end = interior.len() as int;
    assert(body.subrange(end, end + close.len()) =~= close);
    assert forall|j: int| 0 <= j < end implies !occurs_at(body, close, j) by {
        lemma_not_before(interior, rest, close, j);
    }
    lemma_first_occurrence_found(body, close, end);
    assert(body.take(end) =~= interior);
}

} // verus!
