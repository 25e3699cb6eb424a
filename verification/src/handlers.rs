//! The decisions of the request handlers.
//!
//! A handler that needs one answer from storage is a function of that answer.
//! A handler that asks storage or the provider several times is a machine: it
//! is made for one request, takes how the last thing it asked for ended, and
//! says what to ask next or what to reply.

use vstd::prelude::*;
use vstd::string::StringExecFns;
use vstd::utf8::{decode_utf8, valid_utf8};
use crate::analysis::{
    analysis_page, analysis_page_of, cached_text, kind_of, prompt_head, record_view, stored,
    AnalysisKind, AnalysisRecord, UNKNOWN_KIND,
};
use crate::archive::zip_opens;
use crate::errors::{message_of, AppError};
use crate::listing::PREVIEW_WORDS;
use crate::models::{AppRow, IndexPage, UploadPage};
use crate::openai::{reply_of, reply_text, request_of, ChatRequest, ChatRequestView, Transfer};
use crate::reply::{app_views, Reply, ReplyView, Status};
use crate::services::{extract_and_store, Ingest, IngestModel, IngestPhase, MAX_FILE_BYTES};
use crate::text::{decimal, push_decimal, str_eq, truncate_words, truncated};

verus! {

/// Where a file is stored and what text was kept of it.
#[derive(Debug)]
pub struct FileSource {
    pub full_path: String,
    pub content_file: Option<String>,
}

/// Where the analysis of one file stands.
#[derive(Debug)]
pub enum AnalyzeState {
    /// Nothing was asked yet.
    Idle,
    /// The application of the file is being looked up.
    Owner,
    /// The cached record is being looked up.
    Record { app_id: i64 },
    /// The stored text of the file is being looked up.
    Source { app_id: i64 },
    /// The file is being read from its path, since no text was stored.
    Disk { app_id: i64 },
    /// The provider is being asked.
    Provider { app_id: i64 },
    /// The provider's answer is being written to the record.
    Storing { app_id: i64, text: String },
    /// The request was answered.
    Closed,
}

/// `AnalyzeState` as contracts see it: the same fields, with each string as the
/// sequence of its characters.
pub enum AnalyzeStateView {
    Idle,
    Owner,
    Record { app_id: i64 },
    Source { app_id: i64 },
    Disk { app_id: i64 },
    Provider { app_id: i64 },
    Storing { app_id: i64, text: Seq<char> },
    Closed,
}

impl View for AnalyzeState {
    type V = AnalyzeStateView;

    open spec fn view(&self) -> AnalyzeStateView {
        match *self {
            AnalyzeState::Idle => AnalyzeStateView::Idle,
            AnalyzeState::Owner => AnalyzeStateView::Owner,
            AnalyzeState::Record { app_id } => AnalyzeStateView::Record { app_id },
            AnalyzeState::Source { app_id } => AnalyzeStateView::Source { app_id },
            AnalyzeState::Disk { app_id } => AnalyzeStateView::Disk { app_id },
            AnalyzeState::Provider { app_id } => AnalyzeStateView::Provider { app_id },
            AnalyzeState::Storing { app_id, text } => AnalyzeStateView::Storing {
                app_id,
                text: text@,
            },
            AnalyzeState::Closed => AnalyzeStateView::Closed,
        }
    }
}

/// How what an analysis asked for has ended.
#[derive(Debug)]
pub enum AnalyzeEvent {
    /// The caller is ready.
    Start,
    /// The identifier of the application that the file belongs to.
    Owner(Result<i64, AppError>),
    /// The cached record of the file, if there is one.
    Record(Result<Option<AnalysisRecord>, AppError>),
    /// The path and the stored text of the file.
    Source(Result<FileSource, AppError>),
    /// The text read from the path of the file; nothing where it could not be
    /// read.
    Disk(Option<String>),
    /// What came back from the provider.
    Answer(Transfer),
    /// Whether the text was written to the record.
    Stored(Result<(), AppError>),
}

/// What the caller does next for an analysis.
#[derive(Debug)]
pub enum AnalyzeAction {
    /// Look up the application of the file.
    FetchOwner { file_id: i32 },
    /// Look up the cached record of the file.
    FetchRecord { file_id: i32 },
    /// Look up the path and the stored text of the file.
    FetchSource { file_id: i32 },
    /// Read the file at `path`.
    ReadFile { path: String },
    /// Send the request to the provider.
    Send(ChatRequest),
    /// Write `text` to the field of `kind` in the record of the file.
    Upsert { file_id: i32, kind: AnalysisKind, text: String },
    /// Answer the request.
    Reply(Reply),
}

/// `AnalyzeAction` as contracts see it: the same fields, with each string as the
/// sequence of its characters.
pub enum AnalyzeActionView {
    FetchOwner { file_id: i32 },
    FetchRecord { file_id: i32 },
    FetchSource { file_id: i32 },
    ReadFile { path: Seq<char> },
    Send(ChatRequestView),
    Upsert { file_id: i32, kind: AnalysisKind, text: Seq<char> },
    Reply(ReplyView),
}

impl View for AnalyzeAction {
    type V = AnalyzeActionView;

    open spec fn view(&self) -> AnalyzeActionView {
        match *self {
            AnalyzeAction::FetchOwner { file_id } => AnalyzeActionView::FetchOwner { file_id },
            AnalyzeAction::FetchRecord { file_id } => AnalyzeActionView::FetchRecord { file_id },
            AnalyzeAction::FetchSource { file_id } => AnalyzeActionView::FetchSource { file_id },
            AnalyzeAction::ReadFile { path } => AnalyzeActionView::ReadFile { path: path@ },
            AnalyzeAction::Send(request) => AnalyzeActionView::Send(request@),
            AnalyzeAction::Upsert { file_id, kind, text } => AnalyzeActionView::Upsert {
                file_id,
                kind,
                text: text@,
            },
            AnalyzeAction::Reply(reply) => AnalyzeActionView::Reply(reply@),
        }
    }
}

/// The request for one analysis: the file, the name of the kind, whether a new
/// text is forced, and the credential for the provider.
pub struct AnalyzeRequest {
    pub file_id: i32,
    pub kind: Seq<char>,
    pub force: bool,
    pub api_key: Seq<char>,
}

/// The rejection that ends an analysis.
pub open spec fn analyze_rejected(cause: AppError) -> (AnalyzeStateView, AnalyzeActionView) {
    (AnalyzeStateView::Closed, AnalyzeActionView::Reply(ReplyView::Rejected(cause)))
}

/// The page that ends an analysis with `content`.
pub open spec fn analyze_shown(req: AnalyzeRequest, app_id: i64, content: Seq<char>) -> (
    AnalyzeStateView,
    AnalyzeActionView,
) {
    (
        AnalyzeStateView::Closed,
        AnalyzeActionView::Reply(
            ReplyView::Analysis(analysis_page_of(req.kind, req.file_id, app_id, content)),
        ),
    )
}

/// Asking the provider about the source text `code`: the request is sent, or
/// the analysis is rejected where no credential is configured.
pub open spec fn analyze_ask(req: AnalyzeRequest, kind: AnalysisKind, app_id: i64, code: Seq<char>) -> (
    AnalyzeStateView,
    AnalyzeActionView,
) {
    match request_of(req.api_key, prompt_head(kind) + code) {
        Ok(request) => (AnalyzeStateView::Provider { app_id }, AnalyzeActionView::Send(request)),
        Err(e) => analyze_rejected(e),
    }
}

/// The next state and action of an analysis.
///
/// The application of the file is looked up first. A kind that is none of the
/// three is answered at once with a fixed text: the provider is not asked and
/// nothing is written. Without force the cached record is looked up, and a
/// text that is there is shown. Else the source text is taken from storage, or
/// read from the path of the file where storage holds none, in which case a
/// file that cannot be read counts as empty. The provider's answer is written
/// to the record and then shown. A failure of storage or of the provider, and
/// a missing credential, reject the request with that failure and write
/// nothing; an event that does not answer what was asked rejects it as a
/// failure of storage.
pub open spec fn analyze_step(req: AnalyzeRequest, state: AnalyzeStateView, event: AnalyzeEvent) -> (
    AnalyzeStateView,
    AnalyzeActionView,
) {
    match (state, event) {
        (AnalyzeStateView::Idle, AnalyzeEvent::Start) => (
            AnalyzeStateView::Owner,
            AnalyzeActionView::FetchOwner { file_id: req.file_id },
        ),
        (AnalyzeStateView::Owner, AnalyzeEvent::Owner(Ok(app_id))) => match kind_of(req.kind) {
            None => analyze_shown(req, app_id, UNKNOWN_KIND@),
            Some(_) => if req.force {
                (
                    AnalyzeStateView::Source { app_id },
                    AnalyzeActionView::FetchSource { file_id: req.file_id },
                )
            } else {
                (
                    AnalyzeStateView::Record { app_id },
                    AnalyzeActionView::FetchRecord { file_id: req.file_id },
                )
            },
        },
        (AnalyzeStateView::Owner, AnalyzeEvent::Owner(Err(e))) => analyze_rejected(e),
        (AnalyzeStateView::Record { app_id }, AnalyzeEvent::Record(Ok(record))) => match kind_of(
            req.kind,
        ) {
            None => analyze_rejected(AppError::Storage),
            Some(kind) => match cached_text(record_view(record), kind, false) {
                Some(text) => analyze_shown(req, app_id, text),
                None => (
                    AnalyzeStateView::Source { app_id },
                    AnalyzeActionView::FetchSource { file_id: req.file_id },
                ),
            },
        },
        (AnalyzeStateView::Record { app_id }, AnalyzeEvent::Record(Err(e))) => analyze_rejected(e),
        (AnalyzeStateView::Source { app_id }, AnalyzeEvent::Source(Ok(source))) => match kind_of(
            req.kind,
        ) {
            None => analyze_rejected(AppError::Storage),
            Some(kind) => match source.content_file {
                Some(code) => analyze_ask(req, kind, app_id, code@),
                None => (
                    AnalyzeStateView::Disk { app_id },
                    AnalyzeActionView::ReadFile { path: source.full_path@ },
                ),
            },
        },
        (AnalyzeStateView::Source { app_id }, AnalyzeEvent::Source(Err(e))) => analyze_rejected(e),
        (AnalyzeStateView::Disk { app_id }, AnalyzeEvent::Disk(read)) => match kind_of(req.kind) {
            None => analyze_rejected(AppError::Storage),
            Some(kind) => analyze_ask(
                req,
                kind,
                app_id,
                match read {
                    Some(code) => code@,
                    None => Seq::empty(),
                },
            ),
        },
        (AnalyzeStateView::Provider { app_id }, AnalyzeEvent::Answer(transfer)) => match (
            kind_of(req.kind),
            reply_of(transfer),
        ) {
            (Some(kind), Ok(text)) => (
                AnalyzeStateView::Storing { app_id, text },
                AnalyzeActionView::Upsert { file_id: req.file_id, kind, text },
            ),
            (_, Err(e)) => analyze_rejected(e),
            (None, Ok(_)) => analyze_rejected(AppError::Storage),
        },
        (AnalyzeStateView::Storing { app_id, text }, AnalyzeEvent::Stored(Ok(_))) => analyze_shown(
            req,
            app_id,
            text,
        ),
        (AnalyzeStateView::Storing { app_id, text }, AnalyzeEvent::Stored(Err(e))) => analyze_rejected(
            e,
        ),
        _ => analyze_rejected(AppError::Storage),
    }
}

/// The analysis of one file, from the request to the reply.
pub struct Analyze {
    file_id: i32,
    kind: String,
    force: bool,
    api_key: String,
    state: AnalyzeState,
}

impl Analyze {
    /// The request that this analysis serves.
    pub closed spec fn request(&self) -> AnalyzeRequest {
        AnalyzeRequest {
            file_id: self.file_id,
            kind: self.kind@,
            force: self.force,
            api_key: self.api_key@,
        }
    }

    /// Where this analysis stands.
    pub closed spec fn state(&self) -> AnalyzeStateView {
        self.state@
    }

    fn rejected(&mut self, cause: AppError) -> (action: AnalyzeAction)
        ensures
            final(self).request() == old(self).request(),
            (final(self).state(), action@) == analyze_rejected(cause),
    {
        self.state = AnalyzeState::Closed;
        AnalyzeAction::Reply(Reply::Rejected(cause))
    }

    fn shown(&mut self, app_id: i64, content: String) -> (action: AnalyzeAction)
        ensures
            final(self).request() == old(self).request(),
            (final(self).state(), action@) == analyze_shown(old(self).request(), app_id, content@),
    {
        self.state = AnalyzeState::Closed;
        AnalyzeAction::Reply(
            Reply::Analysis(analysis_page(self.kind.as_str(), self.file_id, app_id, content)),
        )
    }

    fn ask(&mut self, kind: AnalysisKind, app_id: i64, code: &str) -> (action: AnalyzeAction)
        ensures
            final(self).request() == old(self).request(),
            (final(self).state(), action@) == analyze_ask(old(self).request(), kind, app_id, code@),
    {
        match kind.request(self.api_key.as_str(), code) {
            Ok(request) => {
                self.state = AnalyzeState::Provider { app_id };
                AnalyzeAction::Send(request)
            },
            Err(e) => self.rejected(e),
        }
    }

    /// Takes how the last thing asked for ended and says what to do next.
    pub fn step(&mut self, event: AnalyzeEvent) -> (action: AnalyzeAction)
        ensures
            final(self).request() == old(self).request(),
            (final(self).state(), action@) == analyze_step(
                old(self).request(),
                old(self).state(),
                event,
            ),
    {
        let kind = AnalysisKind::parse(self.kind.as_str());
        let mut state = AnalyzeState::Closed;
        std::mem::swap(&mut self.state, &mut state);
        match (state, event) {
            (AnalyzeState::Idle, AnalyzeEvent::Start) => {
                self.state = AnalyzeState::Owner;
                AnalyzeAction::FetchOwner { file_id: self.file_id }
            },
            (AnalyzeState::Owner, AnalyzeEvent::Owner(Ok(app_id))) => match kind {
                None => self.shown(app_id, UNKNOWN_KIND.to_owned()),
                Some(_) => if self.force {
                    self.state = AnalyzeState::Source { app_id };
                    AnalyzeAction::FetchSource { file_id: self.file_id }
                } else {
                    self.state = AnalyzeState::Record { app_id };
                    AnalyzeAction::FetchRecord { file_id: self.file_id }
                },
            },
            (AnalyzeState::Owner, AnalyzeEvent::Owner(Err(e))) => self.rejected(e),
            (AnalyzeState::Record { app_id }, AnalyzeEvent::Record(Ok(record))) => match kind {
                None => self.rejected(AppError::Storage),
                Some(kind) => match stored(record, kind) {
                    Some(text) => self.shown(app_id, text),
                    None => {
                        self.state = AnalyzeState::Source { app_id };
                        AnalyzeAction::FetchSource { file_id: self.file_id }
                    },
                },
            },
            (AnalyzeState::Record { .. }, AnalyzeEvent::Record(Err(e))) => self.rejected(e),
            (AnalyzeState::Source { app_id }, AnalyzeEvent::Source(Ok(source))) => match kind {
                None => self.rejected(AppError::Storage),
                Some(kind) => match source.content_file {
                    Some(code) => self.ask(kind, app_id, code.as_str()),
                    None => {
                        self.state = AnalyzeState::Disk { app_id };
                        AnalyzeAction::ReadFile { path: source.full_path }
                    },
                },
            },
            (AnalyzeState::Source { .. }, AnalyzeEvent::Source(Err(e))) => self.rejected(e),
            (AnalyzeState::Disk { app_id }, AnalyzeEvent::Disk(read)) => match kind {
                None => self.rejected(AppError::Storage),
                Some(kind) => {
                    let code = match read {
                        Some(code) => code,
                        None => String::new(),
                    };
                    self.ask(kind, app_id, code.as_str())
                },
            },
            (AnalyzeState::Provider { app_id }, AnalyzeEvent::Answer(transfer)) => match (
                kind,
                reply_text(&transfer),
            ) {
                (Some(kind), Ok(text)) => {
                    let copy = text.clone();
                    self.state = AnalyzeState::Storing { app_id, text };
                    AnalyzeAction::Upsert { file_id: self.file_id, kind, text: copy }
                },
                (_, Err(e)) => self.rejected(e),
                (None, Ok(_)) => self.rejected(AppError::Storage),
            },
            (AnalyzeState::Storing { app_id, text }, AnalyzeEvent::Stored(Ok(_))) => self.shown(
                app_id,
                text,
            ),
            (AnalyzeState::Storing { .. }, AnalyzeEvent::Stored(Err(e))) => self.rejected(e),
            _ => self.rejected(AppError::Storage),
        }
    }
}

/// The analysis of the file `file_id` for the kind named `kind`.
pub fn analyze_file(file_id: i32, kind: String, force: bool, api_key: String) -> (a: Analyze)
    ensures
        a.request() == (AnalyzeRequest { file_id, kind: kind@, force, api_key: api_key@ }),
        a.state() == AnalyzeStateView::Idle,
{
    Analyze { file_id, kind, force, api_key, state: AnalyzeState::Idle }
}

/// Without force, a text that the record holds is shown as it is, and the
/// analysis ends there: the provider is not asked and nothing is written.
pub proof fn lemma_cached_analysis_is_served(
    req: AnalyzeRequest,
    kind: AnalysisKind,
    app_id: i64,
    record: Option<AnalysisRecord>,
    text: Seq<char>,
)
    requires
        kind_of(req.kind) == Some(kind),
        cached_text(record_view(record), kind, false) == Some(text),
    ensures
        analyze_step(req, AnalyzeStateView::Record { app_id }, AnalyzeEvent::Record(Ok(record)))
            == analyze_shown(req, app_id, text),
        analyze_shown(req, app_id, text).0 == AnalyzeStateView::Closed,
{
}

/// With force the record is not looked up. Once the source text is there the
/// provider is asked, and its answer is written to the field of the kind that
/// was asked for and to no other, and then shown.
pub proof fn lemma_forced_analysis_asks_provider(
    req: AnalyzeRequest,
    kind: AnalysisKind,
    app_id: i64,
    source: FileSource,
    code: String,
    transfer: Transfer,
    text: Seq<char>,
)
    requires
        req.force,
        kind_of(req.kind) == Some(kind),
        req.api_key.len() > 0,
        source.content_file == Some(code),
        reply_of(transfer) == Ok::<Seq<char>, AppError>(text),
    ensures
        analyze_step(req, AnalyzeStateView::Owner, AnalyzeEvent::Owner(Ok(app_id))) == (
            AnalyzeStateView::Source { app_id },
            AnalyzeActionView::FetchSource { file_id: req.file_id },
        ),
        analyze_step(req, AnalyzeStateView::Source { app_id }, AnalyzeEvent::Source(Ok(source)))
            == (
            AnalyzeStateView::Provider { app_id },
            AnalyzeActionView::Send(
                ChatRequestView {
                    api_key: req.api_key,
                    model: crate::openai::MODEL@,
                    system: crate::openai::SYSTEM_PROMPT@,
                    user: prompt_head(kind) + code@,
                },
            ),
        ),
        analyze_step(req, AnalyzeStateView::Provider { app_id }, AnalyzeEvent::Answer(transfer))
            == (
            AnalyzeStateView::Storing { app_id, text },
            AnalyzeActionView::Upsert { file_id: req.file_id, kind, text },
        ),
        analyze_step(
            req,
            AnalyzeStateView::Storing { app_id, text },
            AnalyzeEvent::Stored(Ok(())),
        ) == analyze_shown(req, app_id, text),
{
}

/// The title of the application summary.
pub const SUMMARY_TITLE: &'static str = "Ringkasan Aplikasi";

/// The error code of a summary that was not made yet.
pub const NO_SUMMARY: &'static str = "no_summary";

/// The error code of a failure of storage.
pub const DB_ERROR: &'static str = "db_error";

/// What the whole summary answers where none was made yet.
pub const NO_SUMMARY_FULL: &'static str =
    "Belum ada summary. Klik 'Summary' atau 'Summary Ulang' untuk membuatnya.";

/// What the preview answers where no summary was made yet.
pub const NO_SUMMARY_PREVIEW: &'static str =
    "Belum ada summary. Klik 'Summary' atau 'Summary Ulang' untuk menghasilkan ringkasan.";

/// What is answered for a text that the record of a file does not hold.
pub const NO_RESULT: &'static str = "Belum ada hasil.";

/// The title for a file without a record.
pub const NOT_ANALYZED_TITLE: &'static str = "Belum dianalisis";

/// What is answered for a file without a record.
pub const NOT_ANALYZED: &'static str = "Belum ada hasil. Jalankan analisa terlebih dahulu.";

/// The title for a kind that is none of the three.
pub const UNKNOWN_TITLE: &'static str = "Tidak dikenal";

/// The title of the function summary.
pub const FUNGSI_TITLE: &'static str = "Analisa Fungsi";

/// The title of the file-relation summary.
pub const RELASI_FILE_TITLE: &'static str = "Relasi File";

/// The title of the database-relation summary.
pub const RELASI_DB_TITLE: &'static str = "Relasi DB";

/// The list of applications for scripts where it cannot be serialised.
pub const EMPTY_LIST: &'static str = "[]";

/// The name of an application that was uploaded without one.
pub const DEFAULT_APP_NAME: &'static str = "MyApp";

/// The part of the upload form that names the application.
pub const PART_APP_NAME: &'static str = "app_name";

/// The part of the upload form that holds the archive.
pub const PART_FILE: &'static str = "file";

/// An optional text, empty where it is missing.
pub open spec fn text_or_empty(o: Option<String>) -> Seq<char> {
    match o {
        Some(s) => s@,
        None => Seq::empty(),
    }
}

/// The JSON reply that reports a failure of storage with its message.
pub open spec fn storage_failure_of(message: Seq<char>) -> ReplyView {
    ReplyView::Failure { status: Status::InternalServerError, error: DB_ERROR@, message }
}

/// The whole summary of an application, as JSON: the stored text, empty where
/// the row holds none; not found where there is no row.
pub open spec fn summary_full_of(row: Result<Option<Option<String>>, String>) -> ReplyView {
    match row {
        Ok(Some(summary)) => ReplyView::Content {
            title: SUMMARY_TITLE@,
            content: text_or_empty(summary),
        },
        Ok(None) => ReplyView::Failure {
            status: Status::NotFound,
            error: NO_SUMMARY@,
            message: NO_SUMMARY_FULL@,
        },
        Err(e) => storage_failure_of(e@),
    }
}

/// The preview of the summary of an application, as JSON: the stored text
/// where it has at most `PREVIEW_WORDS` words, else its first `PREVIEW_WORDS`
/// words and the ellipsis marker.
pub open spec fn summary_preview_of(row: Result<Option<Option<String>>, String>) -> ReplyView {
    match row {
        Ok(Some(summary)) => ReplyView::Content {
            title: SUMMARY_TITLE@,
            content: truncated(text_or_empty(summary), PREVIEW_WORDS as nat),
        },
        Ok(None) => ReplyView::Failure {
            status: Status::NotFound,
            error: NO_SUMMARY@,
            message: NO_SUMMARY_PREVIEW@,
        },
        Err(e) => storage_failure_of(e@),
    }
}

/// The list of applications: the rows with their serialisation, which is an
/// empty list where they could not be serialised; a fragment that shows the
/// message where storage failed.
pub open spec fn apps_of(fetched: Result<(Vec<AppRow>, Option<String>), String>) -> ReplyView {
    match fetched {
        Ok((rows, json)) => ReplyView::Index {
            apps: app_views(rows@),
            json: match json {
                Some(j) => j@,
                None => EMPTY_LIST@,
            },
        },
        Err(e) => ReplyView::Html {
            status: Status::Success,
            body: "<h3>DB error</h3><pre>"@ + e@ + "</pre><p>Cek DATABASE_URL / DB & tabel.</p>"@,
        },
    }
}

/// The title under which a kind is shown.
pub open spec fn kind_title(kind: AnalysisKind) -> Seq<char> {
    match kind {
        AnalysisKind::Fungsi => FUNGSI_TITLE@,
        AnalysisKind::RelasiFile => RELASI_FILE_TITLE@,
        AnalysisKind::RelasiDb => RELASI_DB_TITLE@,
    }
}

/// One cached analysis, as JSON. It is only read: a file without a record and
/// a record without the text are answered with a note that nothing was made
/// yet, and a kind that is none of the three with a note that says so.
pub open spec fn analysis_json_of(kind: Seq<char>, row: Result<Option<AnalysisRecord>, String>) -> ReplyView {
    match row {
        Err(e) => storage_failure_of(e@),
        Ok(None) => ReplyView::Content { title: NOT_ANALYZED_TITLE@, content: NOT_ANALYZED@ },
        Ok(Some(record)) => match kind_of(kind) {
            None => ReplyView::Content { title: UNKNOWN_TITLE@, content: UNKNOWN_KIND@ },
            Some(k) => ReplyView::Content {
                title: kind_title(k),
                content: match cached_text(Some(record@), k, false) {
                    Some(text) => text,
                    None => NO_RESULT@,
                },
            },
        },
    }
}

/// The JSON reply that reports a failure of storage.
fn storage_failure(message: String) -> (reply: Reply)
    ensures
        reply@ == storage_failure_of(message@),
{
    Reply::Failure { status: Status::InternalServerError, error: DB_ERROR.to_owned(), message }
}

/// The whole summary of an application, given the row that storage returned.
pub fn api_get_app_summary_full(row: Result<Option<Option<String>>, String>) -> (reply: Reply)
    ensures
        reply@ == summary_full_of(row),
{
    match row {
        Ok(Some(summary)) => {
            let content = match summary {
                Some(s) => s,
                None => String::new(),
            };
            Reply::Content { title: SUMMARY_TITLE.to_owned(), content }
        },
        Ok(None) => Reply::Failure {
            status: Status::NotFound,
            error: NO_SUMMARY.to_owned(),
            message: NO_SUMMARY_FULL.to_owned(),
        },
        Err(e) => storage_failure(e),
    }
}

/// The preview of the summary of an application, given the row that storage
/// returned.
pub fn api_get_app_summary_preview(row: Result<Option<Option<String>>, String>) -> (reply: Reply)
    ensures
        reply@ == summary_preview_of(row),
{
    match row {
        Ok(Some(summary)) => {
            let full = match summary {
                Some(s) => s,
                None => String::new(),
            };
            Reply::Content {
                title: SUMMARY_TITLE.to_owned(),
                content: truncate_words(full.as_str(), PREVIEW_WORDS),
            }
        },
        Ok(None) => Reply::Failure {
            status: Status::NotFound,
            error: NO_SUMMARY.to_owned(),
            message: NO_SUMMARY_PREVIEW.to_owned(),
        },
        Err(e) => storage_failure(e),
    }
}

/// The upload form.
pub fn upload_page() -> (reply: Reply)
    ensures
        reply@ == ReplyView::Upload,
{
    Reply::Upload(UploadPage)
}

/// The list of applications, given the rows that storage returned, newest
/// first, and their serialisation.
pub fn list_apps(fetched: Result<(Vec<AppRow>, Option<String>), String>) -> (reply: Reply)
    ensures
        reply@ == apps_of(fetched),
{
    match fetched {
        Ok((rows, json)) => {
            let json = match json {
                Some(j) => j,
                None => EMPTY_LIST.to_owned(),
            };
            Reply::Index(IndexPage { apps: rows, json })
        },
        Err(e) => {
            let mut body = "<h3>DB error</h3><pre>".to_owned();
            body.append(e.as_str());
            body.append("</pre><p>Cek DATABASE_URL / DB & tabel.</p>");
            Reply::Html { status: Status::Success, body }
        },
    }
}

/// One cached analysis of a file, given the record that storage returned.
pub fn api_get_analysis(kind: &str, row: Result<Option<AnalysisRecord>, String>) -> (reply: Reply)
    ensures
        reply@ == analysis_json_of(kind@, row),
{
    match row {
        Err(e) => storage_failure(e),
        Ok(None) => Reply::Content {
            title: NOT_ANALYZED_TITLE.to_owned(),
            content: NOT_ANALYZED.to_owned(),
        },
        Ok(Some(record)) => match AnalysisKind::parse(kind) {
            None => Reply::Content {
                title: UNKNOWN_TITLE.to_owned(),
                content: UNKNOWN_KIND.to_owned(),
            },
            Some(k) => {
                let title = match k {
                    AnalysisKind::Fungsi => FUNGSI_TITLE.to_owned(),
                    AnalysisKind::RelasiFile => RELASI_FILE_TITLE.to_owned(),
                    AnalysisKind::RelasiDb => RELASI_DB_TITLE.to_owned(),
                };
                let content = match stored(Some(record), k) {
                    Some(text) => text,
                    None => NO_RESULT.to_owned(),
                };
                Reply::Content { title, content }
            },
        },
    }
}

/// Calls `String::from_utf8`: the text that the bytes encode where they are
/// valid UTF-8, nothing otherwise.
#[verifier::external_body]
fn decode_strict(data: Vec<u8>) -> (r: Option<String>)
    ensures
        match r {
            Some(s) => valid_utf8(data@) && s@ == decode_utf8(data@),
            None => !valid_utf8(data@),
        },
{
    String::from_utf8(data).ok()
}

/// What an upload form holds after its parts were read.
#[derive(Debug)]
pub struct UploadForm {
    pub app_name: String,
    pub archive: Option<Vec<u8>>,
}

/// `UploadForm` as contracts see it: the same fields, with each string as the
/// sequence of its characters.
pub struct UploadFormView {
    pub app_name: Seq<char>,
    pub archive: Option<Seq<u8>>,
}

impl View for UploadForm {
    type V = UploadFormView;

    open spec fn view(&self) -> UploadFormView {
        UploadFormView {
            app_name: self.app_name@,
            archive: match self.archive {
                Some(bytes) => Some(bytes@),
                None => None,
            },
        }
    }
}

/// The form after the part `name` with the content `data` was read.
///
/// The name of the application is the text of its part, or the default name
/// where the part is no valid UTF-8. The archive is the content of the file
/// part. A later part of the same name replaces an earlier one, and any other
/// part is ignored.
pub open spec fn form_with(form: UploadFormView, name: Seq<char>, data: Seq<u8>) -> UploadFormView {
    if name == PART_APP_NAME@ {
        UploadFormView {
            app_name: if valid_utf8(data) {
                decode_utf8(data)
            } else {
                DEFAULT_APP_NAME@
            },
            ..form
        }
    } else if name == PART_FILE@ {
        UploadFormView { archive: Some(data), ..form }
    } else {
        form
    }
}

/// Where an upload leads once its archive was stored.
pub open spec fn uploaded_of(app_id: i64) -> ReplyView {
    ReplyView::Redirect { location: "/apps/"@ + decimal(app_id as int) }
}

impl UploadForm {
    /// A form of which no part was read: the default name and no archive.
    pub fn new() -> (form: UploadForm)
        ensures
            form@ == (UploadFormView { app_name: DEFAULT_APP_NAME@, archive: None }),
    {
        UploadForm { app_name: DEFAULT_APP_NAME.to_owned(), archive: None }
    }

    /// Reads the part `name` with the content `data`.
    pub fn part(&mut self, name: &str, data: Vec<u8>)
        ensures
            final(self)@ == form_with(old(self)@, name@, data@),
    {
        if str_eq(name, PART_APP_NAME) {
            self.app_name = match decode_strict(data) {
                Some(text) => text,
                None => DEFAULT_APP_NAME.to_owned(),
            };
        } else if str_eq(name, PART_FILE) {
            self.archive = Some(data);
        }
    }
}

/// Readies the ingest of an uploaded form. An upload without an archive, and
/// one whose archive cannot be opened, is rejected as a failure of the
/// archive before storage is asked for anything.
pub fn upload_zip(form: UploadForm) -> (r: Result<Ingest, Reply>)
    ensures
        match r {
            Ok(ingest) => form.archive matches Some(bytes) && zip_opens(bytes@) && ingest.wf()
                && ingest.source() == bytes@ && ingest.cap() == MAX_FILE_BYTES && ingest.name()
                == form.app_name@ && ingest.model() == (IngestModel {
                phase: IngestPhase::Idle,
                position: 0,
            }),
            Err(reply) => reply@ == ReplyView::Rejected(AppError::Archive) && (
            form.archive matches Some(bytes) ==> !zip_opens(bytes@)),
        },
{
    let bytes = match form.archive {
        Some(bytes) => bytes,
        None => {
            return Err(Reply::Rejected(AppError::Archive));
        },
    };
    match extract_and_store(form.app_name.as_str(), bytes) {
        Ok(ingest) => Ok(ingest),
        Err(e) => Err(Reply::Rejected(e)),
    }
}

/// The redirect to the application that an upload has stored.
pub fn uploaded(app_id: i64) -> (reply: Reply)
    ensures
        reply@ == uploaded_of(app_id),
{
    let mut location = "/apps/".to_owned();
    push_decimal(&mut location, app_id);
    Reply::Redirect { location }
}

/// What a rejected request is answered with.
pub const REJECTION: &'static str = "Terjadi kesalahan di server (lihat log).";

/// What a rejected request for JSON is answered with.
pub const API_REJECTION: &'static str = "Terjadi kesalahan di server (api).";

/// The error code of a rejected request for JSON.
pub const REJECTED: &'static str = "rejected";

/// The text that answers a rejected request: a general line, and behind it,
/// where the cause is known, the line that names the collaborator that
/// failed.
pub open spec fn rejection_text(cause: Option<AppError>) -> Seq<char> {
    match cause {
        Some(e) => REJECTION@ + " "@ + message_of(e),
        None => REJECTION@,
    }
}

/// The answer to a request that was rejected, with status 500. It tells a
/// failure of storage from a failure of the provider and from a missing
/// credential, and shows nothing else of the cause.
pub fn handle_rejection(cause: Option<AppError>) -> (reply: Reply)
    ensures
        reply@ == (ReplyView::Html {
            status: Status::InternalServerError,
            body: rejection_text(cause),
        }),
{
    let mut body = REJECTION.to_owned();
    match cause {
        Some(e) => {
            body.append(" ");
            let line = e.message();
            body.append(line.as_str());
        },
        None => {},
    }
    Reply::Html { status: Status::InternalServerError, body }
}

/// The answer to a request for JSON that was rejected.
pub fn api_recover() -> (reply: Reply)
    ensures
        reply@ == (ReplyView::Failure {
            status: Status::InternalServerError,
            error: REJECTED@,
            message: API_REJECTION@,
        }),
{
    Reply::Failure {
        status: Status::InternalServerError,
        error: REJECTED.to_owned(),
        message: API_REJECTION.to_owned(),
    }
}

} // verus!
