//! The cache of per-file analyses.
//!
//! A record holds three texts, one for each kind of analysis, and each may be
//! missing. A text that is there is served from the record; one that is
//! missing, or one that is to be made anew, is asked of the provider and then
//! written to its own field, which leaves the other two as they were.

use vstd::prelude::*;
use vstd::string::StringExecFns;
use crate::errors::AppError;
use crate::models::{opt_view, AnalysisPage, AnalysisPageView};
use crate::openai::{
    analisa_fungsi, analisa_relasi_db, analisa_relasi_file, request_of, request_result, ChatRequest,
    FUNGSI_PROMPT, RELASI_DB_PROMPT, RELASI_FILE_PROMPT,
};
use crate::text::{decimal, push_decimal, str_eq};

verus! {

/// The name of the function-summary kind.
pub const KIND_FUNGSI: &'static str = "fungsi";

/// The name of the file-relation kind.
pub const KIND_RELASI_FILE: &'static str = "relasi_file";

/// The name of the database-relation kind.
pub const KIND_RELASI_DB: &'static str = "relasi_db";

/// What is answered for a kind that is none of the three.
pub const UNKNOWN_KIND: &'static str = "Jenis analisa tidak dikenal";

/// The statement that writes the function-summary text of a file and leaves
/// the other texts of its record as they are.
pub const UPSERT_FUNGSI: &'static str =
    "INSERT INTO analysis (file_id, analisa_fungsi) VALUES (?, ?) ON DUPLICATE KEY UPDATE analisa_fungsi=VALUES(analisa_fungsi), created_at=CURRENT_TIMESTAMP";

/// The statement that writes the file-relation text.
pub const UPSERT_RELASI_FILE: &'static str =
    "INSERT INTO analysis (file_id, analisa_relasi_file) VALUES (?, ?) ON DUPLICATE KEY UPDATE analisa_relasi_file=VALUES(analisa_relasi_file), created_at=CURRENT_TIMESTAMP";

/// The statement that writes the database-relation text.
pub const UPSERT_RELASI_DB: &'static str =
    "INSERT INTO analysis (file_id, analisa_relasi_db) VALUES (?, ?) ON DUPLICATE KEY UPDATE analisa_relasi_db=VALUES(analisa_relasi_db), created_at=CURRENT_TIMESTAMP";

/// A kind of per-file analysis.
#[derive(Debug, PartialEq, Eq, Structural, Clone, Copy)]
pub enum AnalysisKind {
    /// What the file does.
    Fungsi,
    /// Which other files it uses.
    RelasiFile,
    /// Which databases it touches.
    RelasiDb,
}

/// The three texts cached for one file.
#[derive(Debug)]
pub struct AnalysisRecord {
    pub analisa_fungsi: Option<String>,
    pub analisa_relasi_file: Option<String>,
    pub analisa_relasi_db: Option<String>,
}

/// `AnalysisRecord` as contracts see it: the same fields, with each string as the
/// sequence of its characters.
pub struct AnalysisRecordView {
    pub analisa_fungsi: Option<Seq<char>>,
    pub analisa_relasi_file: Option<Seq<char>>,
    pub analisa_relasi_db: Option<Seq<char>>,
}

impl View for AnalysisRecord {
    type V = AnalysisRecordView;

    open spec fn view(&self) -> AnalysisRecordView {
        AnalysisRecordView {
            analisa_fungsi: opt_view(self.analisa_fungsi),
            analisa_relasi_file: opt_view(self.analisa_relasi_file),
            analisa_relasi_db: opt_view(self.analisa_relasi_db),
        }
    }
}

/// The view of a record that may be missing.
pub open spec fn record_view(record: Option<AnalysisRecord>) -> Option<AnalysisRecordView> {
    match record {
        Some(r) => Some(r@),
        None => None,
    }
}

/// The kind that a name asks for, if it is one of the three.
pub open spec fn kind_of(name: Seq<char>) -> Option<AnalysisKind> {
    if name == KIND_FUNGSI@ {
        Some(AnalysisKind::Fungsi)
    } else if name == KIND_RELASI_FILE@ {
        Some(AnalysisKind::RelasiFile)
    } else if name == KIND_RELASI_DB@ {
        Some(AnalysisKind::RelasiDb)
    } else {
        None
    }
}

/// What stands before the source text in the prompt of a kind.
pub open spec fn prompt_head(kind: AnalysisKind) -> Seq<char> {
    match kind {
        AnalysisKind::Fungsi => FUNGSI_PROMPT@,
        AnalysisKind::RelasiFile => RELASI_FILE_PROMPT@,
        AnalysisKind::RelasiDb => RELASI_DB_PROMPT@,
    }
}

/// The statement that writes the field of a kind.
pub open spec fn upsert_of(kind: AnalysisKind) -> Seq<char> {
    match kind {
        AnalysisKind::Fungsi => UPSERT_FUNGSI@,
        AnalysisKind::RelasiFile => UPSERT_RELASI_FILE@,
        AnalysisKind::RelasiDb => UPSERT_RELASI_DB@,
    }
}

/// The field of a record that holds the text of a kind.
pub open spec fn field_of(record: AnalysisRecordView, kind: AnalysisKind) -> Option<Seq<char>> {
    match kind {
        AnalysisKind::Fungsi => record.analisa_fungsi,
        AnalysisKind::RelasiFile => record.analisa_relasi_file,
        AnalysisKind::RelasiDb => record.analisa_relasi_db,
    }
}

/// The text of a kind in a record that may be missing.
pub open spec fn stored_text(record: Option<AnalysisRecordView>, kind: AnalysisKind) -> Option<
    Seq<char>,
> {
    match record {
        Some(r) => field_of(r, kind),
        None => None,
    }
}

/// The text that is served without asking the provider: the stored one, unless
/// a new one is forced.
pub open spec fn cached_text(
    record: Option<AnalysisRecordView>,
    kind: AnalysisKind,
    force: bool,
) -> Option<Seq<char>> {
    if force {
        None
    } else {
        stored_text(record, kind)
    }
}

/// The record after `text` was written to the field of `kind`: a new record
/// with that one field where there was none, else the old record with that
/// field replaced.
pub open spec fn upserted(
    record: Option<AnalysisRecordView>,
    kind: AnalysisKind,
    text: Seq<char>,
) -> AnalysisRecordView {
    let old = match record {
        Some(r) => r,
        None => AnalysisRecordView {
            analisa_fungsi: None,
            analisa_relasi_file: None,
            analisa_relasi_db: None,
        },
    };
    match kind {
        AnalysisKind::Fungsi => AnalysisRecordView { analisa_fungsi: Some(text), ..old },
        AnalysisKind::RelasiFile => AnalysisRecordView { analisa_relasi_file: Some(text), ..old },
        AnalysisKind::RelasiDb => AnalysisRecordView { analisa_relasi_db: Some(text), ..old },
    }
}

/// How a request for an analysis ends: the text, whether it came from the
/// record, and the record afterwards.
pub struct CacheOutcome {
    pub text: Seq<char>,
    pub from_cache: bool,
    pub record: Option<AnalysisRecordView>,
}

/// A request for the analysis of `kind`, where the provider would answer
/// `answer` if it were asked. It is asked exactly when the outcome is not
/// from the cache.
pub open spec fn get_or_compute(
    record: Option<AnalysisRecordView>,
    kind: AnalysisKind,
    force: bool,
    answer: Seq<char>,
) -> CacheOutcome {
    match cached_text(record, kind, force) {
        Some(text) => CacheOutcome { text, from_cache: true, record },
        None => CacheOutcome {
            text: answer,
            from_cache: false,
            record: Some(upserted(record, kind, answer)),
        },
    }
}

/// Asked twice without force, the cache answers with the same text both
/// times, and the second answer comes from the record: the provider is asked
/// once at most, whatever it would have said the second time.
pub proof fn lemma_second_request_is_cached(
    record: Option<AnalysisRecordView>,
    kind: AnalysisKind,
    first_answer: Seq<char>,
    second_answer: Seq<char>,
)
    ensures
        ({
            let first = get_or_compute(record, kind, false, first_answer);
            let second = get_or_compute(first.record, kind, false, second_answer);
            &&& second.from_cache
            &&& second.text == first.text
            &&& second.record == first.record
        }),
{
}

/// A forced request always asks the provider. Its answer is returned and
/// written to the field of its kind; the fields of the other kinds stay as
/// they were.
pub proof fn lemma_force_overwrites_one_field(
    record: Option<AnalysisRecordView>,
    kind: AnalysisKind,
    answer: Seq<char>,
    other: AnalysisKind,
)
    ensures
        ({
            let outcome = get_or_compute(record, kind, true, answer);
            &&& !outcome.from_cache
            &&& outcome.text == answer
            &&& stored_text(outcome.record, kind) == Some(answer)
            &&& other != kind ==> stored_text(outcome.record, other) == stored_text(record, other)
        }),
{
}

/// The page that shows the analysis `content` of the file `file_id`, which
/// belongs to the application `app_id`.
pub open spec fn analysis_page_of(
    kind: Seq<char>,
    file_id: i32,
    app_id: i64,
    content: Seq<char>,
) -> AnalysisPageView {
    AnalysisPageView {
        title: "Hasil Analisa "@ + kind,
        content,
        back_href: "/apps/"@ + decimal(app_id as int),
        force_href: Some("/analyze/"@ + decimal(file_id as int) + "/"@ + kind + "/force"@),
    }
}

impl AnalysisKind {
    /// The kind that `name` asks for.
    pub fn parse(name: &str) -> (kind: Option<AnalysisKind>)
        ensures
            kind == kind_of(name@),
    {
        if str_eq(name, KIND_FUNGSI) {
            Some(AnalysisKind::Fungsi)
        } else if str_eq(name, KIND_RELASI_FILE) {
            Some(AnalysisKind::RelasiFile)
        } else if str_eq(name, KIND_RELASI_DB) {
            Some(AnalysisKind::RelasiDb)
        } else {
            None
        }
    }

    /// The statement that writes the text of this kind for one file, bound to
    /// the file's identifier and the text.
    pub fn upsert_statement(self) -> (sql: &'static str)
        ensures
            sql@ == upsert_of(self),
    {
        match self {
            AnalysisKind::Fungsi => UPSERT_FUNGSI,
            AnalysisKind::RelasiFile => UPSERT_RELASI_FILE,
            AnalysisKind::RelasiDb => UPSERT_RELASI_DB,
        }
    }

    /// The request that asks the provider for this kind of analysis of `kode`.
    pub fn request(self, api_key: &str, kode: &str) -> (r: Result<ChatRequest, AppError>)
        ensures
            request_result(r) == request_of(api_key@, prompt_head(self) + kode@),
    {
        match self {
            AnalysisKind::Fungsi => analisa_fungsi(api_key, kode),
            AnalysisKind::RelasiFile => analisa_relasi_file(api_key, kode),
            AnalysisKind::RelasiDb => analisa_relasi_db(api_key, kode),
        }
    }
}

/// The text of `kind` in `record`, if it is there.
pub fn stored(record: Option<AnalysisRecord>, kind: AnalysisKind) -> (text: Option<String>)
    ensures
        opt_view(text) == stored_text(record_view(record), kind),
{
    match record {
        Some(r) => match kind {
            AnalysisKind::Fungsi => r.analisa_fungsi,
            AnalysisKind::RelasiFile => r.analisa_relasi_file,
            AnalysisKind::RelasiDb => r.analisa_relasi_db,
        },
        None => None,
    }
}

/// The page that shows the analysis `content`.
pub fn analysis_page(kind: &str, file_id: i32, app_id: i64, content: String) -> (page: AnalysisPage)
    ensures
        page@ == analysis_page_of(kind@, file_id, app_id, content@),
{
    let mut title = "Hasil Analisa ".to_owned();
    title.append(kind);
    let mut back_href = "/apps/".to_owned();
    push_decimal(&mut back_href, app_id);
    let mut force_href = "/analyze/".to_owned();
    push_decimal(&mut force_href, file_id as i64);
    force_href.append("/");
    force_href.append(kind);
    force_href.append("/force");
    AnalysisPage { title, content, back_href, force_href: Some(force_href) }
}

impl AnalysisRecord {
    /// A record with no text.
    pub fn empty() -> (record: AnalysisRecord)
        ensures
            record@ == (AnalysisRecordView {
                analisa_fungsi: None,
                analisa_relasi_file: None,
                analisa_relasi_db: None,
            }),
    {
        AnalysisRecord { analisa_fungsi: None, analisa_relasi_file: None, analisa_relasi_db: None }
    }

    /// What the statement of `kind` makes of `record` when it writes `text`:
    /// the image in memory of the upsert that storage performs.
    pub fn upsert(record: Option<AnalysisRecord>, kind: AnalysisKind, text: String) -> (after:
        AnalysisRecord)
        ensures
            after@ == upserted(record_view(record), kind, text@),
    {
        let mut after = match record {
            Some(r) => r,
            None => AnalysisRecord::empty(),
        };
        match kind {
            AnalysisKind::Fungsi => {
                after.analisa_fungsi = Some(text);
            },
            AnalysisKind::RelasiFile => {
                after.analisa_relasi_file = Some(text);
            },
            AnalysisKind::RelasiDb => {
                after.analisa_relasi_db = Some(text);
            },
        }
        after
    }
}

} // verus!
