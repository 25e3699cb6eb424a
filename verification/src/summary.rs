//! The summary of a whole application: the payload that describes its files
//! to the provider, and the cache of the provider's answer.

use vstd::prelude::*;
use vstd::string::StringExecFns;
use crate::errors::AppError;
use crate::models::{AnalysisPage, AnalysisPageView};
use crate::openai::{
    reply_of, reply_text, request_of, summary_app, ChatRequest, ChatRequestView, Transfer,
    SUMMARY_PROMPT,
};
use crate::reply::{Reply, ReplyView};
use crate::text::{clip_chars, clipped, decimal, push_decimal};

verus! {

/// Characters of a file's text that go into the payload.
pub const SNIPPET_CHARS: usize = 2000;

/// What marks a text that was cut.
pub const TRUNCATED: &'static str = "...\n[truncated]";

/// A file as the payload describes it.
#[derive(Debug)]
pub struct SummaryRow {
    pub full_path: String,
    pub content_file: Option<String>,
    pub line_count: Option<i32>,
    pub imports: Option<String>,
    pub sql_queries: Option<String>,
}

/// An optional text, empty where it is missing.
pub open spec fn or_empty(o: Option<String>) -> Seq<char> {
    match o {
        Some(s) => s@,
        None => Seq::empty(),
    }
}

/// A line count as the payload writes it: `Some(12)` or `None`.
pub open spec fn lines_text(line_count: Option<i32>) -> Seq<char> {
    match line_count {
        Some(n) => "Some("@ + decimal(n as int) + ")"@,
        None => "None"@,
    }
}

/// The part of a file's text that goes into the payload: its first
/// `SNIPPET_CHARS` characters, marked where the text goes on.
pub open spec fn snippet_of(content: Option<String>) -> Seq<char> {
    match content {
        Some(s) => clipped(s@, SNIPPET_CHARS as nat, TRUNCATED@),
        None => Seq::empty(),
    }
}

/// The block that describes one file: its path and line count, its recorded
/// imports, its recorded SQL, and the snippet of its text.
pub open spec fn block_of(row: SummaryRow) -> Seq<char> {
    "- "@ + row.full_path@ + " | lines="@ + lines_text(row.line_count) + "\nimports:\n"@ + or_empty(
        row.imports,
    ) + "\nsql:\n"@ + or_empty(row.sql_queries) + "\ncontent:\n"@ + snippet_of(row.content_file)
        + "\n\n"@
}

/// The payload: the blocks of all files, in order.
pub open spec fn payload_of(rows: Seq<SummaryRow>) -> Seq<char>
    decreases rows.len(),
{
    if rows.len() == 0 {
        Seq::empty()
    } else {
        payload_of(rows.drop_last()) + block_of(rows.last())
    }
}

/// The page that shows the summary of the application `app_id`.
pub open spec fn summary_page_of(app_id: i32, content: Seq<char>) -> AnalysisPageView {
    AnalysisPageView {
        title: "Summary Aplikasi"@,
        content,
        back_href: "/apps"@,
        force_href: Some("/apps/"@ + decimal(app_id as int) + "/summary/force"@),
    }
}

/// Appends an optional text to `out`; a missing one adds nothing.
fn push_or_empty(out: &mut String, o: &Option<String>)
    ensures
        final(out)@ == old(out)@ + or_empty(*o),
{
    match o {
        Some(s) => {
            out.append(s.as_str());
        },
        None => {
            proof {
                assert(out@ + Seq::<char>::empty() =~= out@);
            }
        },
    }
}

/// Appends the block of one file to `out`.
pub fn push_block(out: &mut String, row: &SummaryRow)
    ensures
        final(out)@ == old(out)@ + block_of(*row),
{
    out.append("- ");
    out.append(row.full_path.as_str());
    out.append(" | lines=");
    match row.line_count {
        Some(n) => {
            out.append("Some(");
            push_decimal(out, n as i64);
            out.append(")");
        },
        None => {
            out.append("None");
        },
    }
    out.append("\nimports:\n");
    push_or_empty(out, &row.imports);
    out.append("\nsql:\n");
    push_or_empty(out, &row.sql_queries);
    out.append("\ncontent:\n");
    match &row.content_file {
        Some(s) => {
            let snippet = clip_chars(s.as_str(), SNIPPET_CHARS, TRUNCATED);
            out.append(snippet.as_str());
        },
        None => {},
    }
    out.append("\n\n");
    proof {
        assert(out@ =~= old(out)@ + block_of(*row));
    }
}

/// The payload that describes the files of an application to the provider.
pub fn payload(rows: &Vec<SummaryRow>) -> (out: String)
    ensures
        out@ == payload_of(rows@),
{
    let mut out = String::new();
    let mut i: usize = 0;
    while i < rows.len()
        invariant
            i <= rows.len(),
            out@ == payload_of(rows@.take(i as int)),
        decreases rows.len() - i,
    {
        push_block(&mut out, &rows[i]);
        proof {
            assert(rows@.take(i + 1).drop_last() =~= rows@.take(i as int));
        }
        i += 1;
    }
    proof {
        assert(rows@.take(rows.len() as int) =~= rows@);
    }
    out
}

/// The page that shows the summary `content`.
pub fn summary_page(app_id: i32, content: String) -> (page: AnalysisPage)
    ensures
        page@ == summary_page_of(app_id, content@),
{
    let mut force_href = "/apps/".to_owned();
    push_decimal(&mut force_href, app_id as i64);
    force_href.append("/summary/force");
    AnalysisPage {
        title: "Summary Aplikasi".to_owned(),
        content,
        back_href: "/apps".to_owned(),
        force_href: Some(force_href),
    }
}

/// Where the summary of an application stands.
#[derive(Debug)]
pub enum SummaryState {
    /// Nothing was asked yet.
    Idle,
    /// The cached summary is being looked up.
    Cached,
    /// The files of the application are being looked up.
    Files,
    /// The provider is being asked.
    Provider,
    /// The provider's answer is being written.
    Storing { text: String },
    /// The request was answered.
    Closed,
}

/// `SummaryState` as contracts see it: the same fields, with each string as the
/// sequence of its characters.
pub enum SummaryStateView {
    Idle,
    Cached,
    Files,
    Provider,
    Storing { text: Seq<char> },
    Closed,
}

impl View for SummaryState {
    type V = SummaryStateView;

    open spec fn view(&self) -> SummaryStateView {
        match *self {
            SummaryState::Idle => SummaryStateView::Idle,
            SummaryState::Cached => SummaryStateView::Cached,
            SummaryState::Files => SummaryStateView::Files,
            SummaryState::Provider => SummaryStateView::Provider,
            SummaryState::Storing { text } => SummaryStateView::Storing { text: text@ },
            SummaryState::Closed => SummaryStateView::Closed,
        }
    }
}

/// How what a summary asked for has ended.
#[derive(Debug)]
pub enum SummaryEvent {
    /// The caller is ready.
    Start,
    /// The cached row of the application, if there is one, and the text in it,
    /// if it holds one.
    Cached(Result<Option<Option<String>>, AppError>),
    /// The files of the application, ordered by identifier.
    Files(Result<Vec<SummaryRow>, AppError>),
    /// What came back from the provider.
    Answer(Transfer),
    /// Whether the summary was written.
    Stored(Result<(), AppError>),
}

/// What the caller does next for a summary.
#[derive(Debug)]
pub enum SummaryAction {
    /// Look up the cached summary of the application.
    FetchSummary { app_id: i32 },
    /// Look up the files of the application with their metadata.
    FetchFiles { app_id: i32 },
    /// Send the request to the provider.
    Send(ChatRequest),
    /// Write `text` as the summary of the application, over any older one.
    Upsert { app_id: i32, text: String },
    /// Answer the request.
    Reply(Reply),
}

/// `SummaryAction` as contracts see it: the same fields, with each string as the
/// sequence of its characters.
pub enum SummaryActionView {
    FetchSummary { app_id: i32 },
    FetchFiles { app_id: i32 },
    Send(ChatRequestView),
    Upsert { app_id: i32, text: Seq<char> },
    Reply(ReplyView),
}

impl View for SummaryAction {
    type V = SummaryActionView;

    open spec fn view(&self) -> SummaryActionView {
        match *self {
            SummaryAction::FetchSummary { app_id } => SummaryActionView::FetchSummary { app_id },
            SummaryAction::FetchFiles { app_id } => SummaryActionView::FetchFiles { app_id },
            SummaryAction::Send(request) => SummaryActionView::Send(request@),
            SummaryAction::Upsert { app_id, text } => SummaryActionView::Upsert {
                app_id,
                text: text@,
            },
            SummaryAction::Reply(reply) => SummaryActionView::Reply(reply@),
        }
    }
}

/// The rejection that ends a summary.
pub open spec fn summary_rejected(cause: AppError) -> (SummaryStateView, SummaryActionView) {
    (SummaryStateView::Closed, SummaryActionView::Reply(ReplyView::Rejected(cause)))
}

/// The page that ends a summary with `content`.
pub open spec fn summary_shown(app_id: i32, content: Seq<char>) -> (
    SummaryStateView,
    SummaryActionView,
) {
    (
        SummaryStateView::Closed,
        SummaryActionView::Reply(ReplyView::Analysis(summary_page_of(app_id, content))),
    )
}

/// The next state and action of a summary.
///
/// Without force the cached summary is looked up and shown if it is there.
/// Else the files are looked up, the payload built from them is sent to the
/// provider, and the answer is written and then shown. A failure of storage or
/// of the provider, and a missing credential, reject the request with that
/// failure and write nothing; an event that does not answer what was asked
/// rejects it as a failure of storage.
pub open spec fn summary_step(
    app_id: i32,
    force: bool,
    api_key: Seq<char>,
    state: SummaryStateView,
    event: SummaryEvent,
) -> (SummaryStateView, SummaryActionView) {
    match (state, event) {
        (SummaryStateView::Idle, SummaryEvent::Start) => if force {
            (SummaryStateView::Files, SummaryActionView::FetchFiles { app_id })
        } else {
            (SummaryStateView::Cached, SummaryActionView::FetchSummary { app_id })
        },
        (SummaryStateView::Cached, SummaryEvent::Cached(Ok(row))) => match row {
            Some(Some(text)) => summary_shown(app_id, text@),
            _ => (SummaryStateView::Files, SummaryActionView::FetchFiles { app_id }),
        },
        (SummaryStateView::Cached, SummaryEvent::Cached(Err(e))) => summary_rejected(e),
        (SummaryStateView::Files, SummaryEvent::Files(Ok(rows))) => match request_of(
            api_key,
            SUMMARY_PROMPT@ + payload_of(rows@),
        ) {
            Ok(request) => (SummaryStateView::Provider, SummaryActionView::Send(request)),
            Err(e) => summary_rejected(e),
        },
        (SummaryStateView::Files, SummaryEvent::Files(Err(e))) => summary_rejected(e),
        (SummaryStateView::Provider, SummaryEvent::Answer(transfer)) => match reply_of(transfer) {
            Ok(text) => (
                SummaryStateView::Storing { text },
                SummaryActionView::Upsert { app_id, text },
            ),
            Err(e) => summary_rejected(e),
        },
        (SummaryStateView::Storing { text }, SummaryEvent::Stored(Ok(_))) => summary_shown(
            app_id,
            text,
        ),
        (SummaryStateView::Storing { text }, SummaryEvent::Stored(Err(e))) => summary_rejected(e),
        _ => summary_rejected(AppError::Storage),
    }
}

/// The summary of one application, from the request to the reply.
pub struct Summarize {
    app_id: i32,
    force: bool,
    api_key: String,
    state: SummaryState,
}

impl Summarize {
    /// The application that is summarised.
    pub closed spec fn app_id(&self) -> i32 {
        self.app_id
    }

    /// Whether a new summary is forced.
    pub closed spec fn force(&self) -> bool {
        self.force
    }

    /// The credential for the provider.
    pub closed spec fn api_key(&self) -> Seq<char> {
        self.api_key@
    }

    /// Where the summary stands.
    pub closed spec fn state(&self) -> SummaryStateView {
        self.state@
    }

    /// Takes how the last thing asked for ended and says what to do next.
    pub fn step(&mut self, event: SummaryEvent) -> (action: SummaryAction)
        ensures
            final(self).app_id() == old(self).app_id(),
            final(self).force() == old(self).force(),
            final(self).api_key() == old(self).api_key(),
            (final(self).state(), action@) == summary_step(
                old(self).app_id(),
                old(self).force(),
                old(self).api_key(),
                old(self).state(),
                event,
            ),
    {
        let mut state = SummaryState::Closed;
        std::mem::swap(&mut self.state, &mut state);
        match (state, event) {
            (SummaryState::Idle, SummaryEvent::Start) => if self.force {
                self.state = SummaryState::Files;
                SummaryAction::FetchFiles { app_id: self.app_id }
            } else {
                self.state = SummaryState::Cached;
                SummaryAction::FetchSummary { app_id: self.app_id }
            },
            (SummaryState::Cached, SummaryEvent::Cached(Ok(row))) => match row {
                Some(Some(text)) => SummaryAction::Reply(
                    Reply::Analysis(summary_page(self.app_id, text)),
                ),
                _ => {
                    self.state = SummaryState::Files;
                    SummaryAction::FetchFiles { app_id: self.app_id }
                },
            },
            (SummaryState::Cached, SummaryEvent::Cached(Err(e))) => SummaryAction::Reply(
                Reply::Rejected(e),
            ),
            (SummaryState::Files, SummaryEvent::Files(Err(e))) => SummaryAction::Reply(
                Reply::Rejected(e),
            ),
            (SummaryState::Storing { .. }, SummaryEvent::Stored(Err(e))) => SummaryAction::Reply(
                Reply::Rejected(e),
            ),
            (SummaryState::Files, SummaryEvent::Files(Ok(rows))) => {
                let described = payload(&rows);
                match summary_app(self.api_key.as_str(), described.as_str()) {
                    Ok(request) => {
                        self.state = SummaryState::Provider;
                        SummaryAction::Send(request)
                    },
                    Err(e) => SummaryAction::Reply(Reply::Rejected(e)),
                }
            },
            (SummaryState::Provider, SummaryEvent::Answer(transfer)) => match reply_text(
                &transfer,
            ) {
                Ok(text) => {
                    let copy = text.clone();
                    self.state = SummaryState::Storing { text };
                    SummaryAction::Upsert { app_id: self.app_id, text: copy }
                },
                Err(e) => SummaryAction::Reply(Reply::Rejected(e)),
            },
            (SummaryState::Storing { text }, SummaryEvent::Stored(Ok(_))) => SummaryAction::Reply(
                Reply::Analysis(summary_page(self.app_id, text)),
            ),
            _ => SummaryAction::Reply(Reply::Rejected(AppError::Storage)),
        }
    }
}

/// The summary of the application `app_id`.
pub fn app_summary(app_id: i32, force: bool, api_key: String) -> (s: Summarize)
    ensures
        s.app_id() == app_id,
        s.force() == force,
        s.api_key() == api_key@,
        s.state() == SummaryStateView::Idle,
{
    Summarize { app_id, force, api_key, state: SummaryState::Idle }
}

} // verus!
