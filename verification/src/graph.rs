//! The graph script of one file: generated by the provider on request, kept
//! in storage, and shown from there.

use vstd::prelude::*;
use crate::errors::AppError;
use crate::handlers::FileSource;
use crate::models::{AppRow, AppRowView, GraphPage, GraphPageView};
use crate::openai::{
    generate_graph_js, graph_script, reply_of, reply_text, request_of, script_of, ChatRequest,
    ChatRequestView, Transfer, GRAPH_PROMPT,
};
use crate::reply::{Reply, ReplyView, Status};
use crate::text::{blank, is_blank};

verus! {

/// What is shown for a file that storage does not know.
pub const FILE_NOT_FOUND: &'static str = "File tidak ditemukan";

/// What is shown for a file whose graph was not generated yet.
pub const NO_GRAPH: &'static str =
    "<div class='container p-3'><a href='javascript:history.back()'>&larr; Kembali</a><h4>Belum ada graph</h4><p>Silakan klik <em>Generate JSON</em> terlebih dahulu.</p></div>";

/// A file with its stored graph script and the application it belongs to.
#[derive(Debug)]
pub struct GraphRow {
    pub nama_file: String,
    pub json_graph: Option<String>,
    pub app_id: i64,
    pub nama_aplikasi: String,
    /// When the application was created, in seconds from the Unix epoch, if
    /// storage recorded it.
    pub created_at: Option<i64>,
}

/// Where the generation of a graph stands.
#[derive(Debug, PartialEq, Eq, Structural, Clone, Copy)]
pub enum GraphState {
    /// Nothing was asked yet.
    Idle,
    /// The stored text of the file is being looked up.
    Source,
    /// The file is being read from its path, since no text was stored.
    Disk,
    /// The provider is being asked.
    Provider,
    /// The script is being written to the file's row.
    Storing,
    /// The request was answered.
    Closed,
}

/// How what a generation asked for has ended.
#[derive(Debug)]
pub enum GraphEvent {
    /// The caller is ready.
    Start,
    /// The path and the stored text of the file.
    Source(Result<FileSource, AppError>),
    /// The text read from the path of the file; nothing where it could not be
    /// read.
    Disk(Option<String>),
    /// What came back from the provider.
    Answer(Transfer),
    /// Whether the script was written.
    Stored(Result<(), AppError>),
}

/// What the caller does next for a generation.
#[derive(Debug)]
pub enum GraphAction {
    /// Look up the path and the stored text of the file.
    FetchSource { file_id: i32 },
    /// Read the file at `path`.
    ReadFile { path: String },
    /// Send the request to the provider.
    Send(ChatRequest),
    /// Write `script` as the graph script of the file, over any older one.
    Store { file_id: i32, script: String },
    /// Answer the request.
    Reply(Reply),
}

/// `GraphAction` as contracts see it: the same fields, with each string as the
/// sequence of its characters.
pub enum GraphActionView {
    FetchSource { file_id: i32 },
    ReadFile { path: Seq<char> },
    Send(ChatRequestView),
    Store { file_id: i32, script: Seq<char> },
    Reply(ReplyView),
}

impl View for GraphAction {
    type V = GraphActionView;

    open spec fn view(&self) -> GraphActionView {
        match *self {
            GraphAction::FetchSource { file_id } => GraphActionView::FetchSource { file_id },
            GraphAction::ReadFile { path } => GraphActionView::ReadFile { path: path@ },
            GraphAction::Send(request) => GraphActionView::Send(request@),
            GraphAction::Store { file_id, script } => GraphActionView::Store {
                file_id,
                script: script@,
            },
            GraphAction::Reply(reply) => GraphActionView::Reply(reply@),
        }
    }
}

/// The rejection that ends a generation.
pub open spec fn graph_rejected(cause: AppError) -> (GraphState, GraphActionView) {
    (GraphState::Closed, GraphActionView::Reply(ReplyView::Rejected(cause)))
}

/// Asking the provider for a graph of the source text `code`.
pub open spec fn graph_ask(api_key: Seq<char>, code: Seq<char>) -> (GraphState, GraphActionView) {
    match request_of(api_key, GRAPH_PROMPT@ + code) {
        Ok(request) => (GraphState::Provider, GraphActionView::Send(request)),
        Err(e) => graph_rejected(e),
    }
}

/// The next state and action of a generation.
///
/// The source text is taken from storage, or read from the path of the file
/// where storage holds none; a file that cannot be read counts as empty. Of
/// the provider's answer the interior of the first block of JavaScript is
/// kept, or the whole answer where it has no such block, and written over the
/// stored script. A failure of storage or of the provider, and a missing
/// credential, reject the request with that failure and write nothing; an
/// event that does not answer what was asked rejects it as a failure of
/// storage.
pub open spec fn graph_step(file_id: i32, api_key: Seq<char>, state: GraphState, event: GraphEvent) -> (
    GraphState,
    GraphActionView,
) {
    match (state, event) {
        (GraphState::Idle, GraphEvent::Start) => (
            GraphState::Source,
            GraphActionView::FetchSource { file_id },
        ),
        (GraphState::Source, GraphEvent::Source(Ok(source))) => match source.content_file {
            Some(code) => graph_ask(api_key, code@),
            None => (GraphState::Disk, GraphActionView::ReadFile { path: source.full_path@ }),
        },
        (GraphState::Source, GraphEvent::Source(Err(e))) => graph_rejected(e),
        (GraphState::Disk, GraphEvent::Disk(read)) => graph_ask(
            api_key,
            match read {
                Some(code) => code@,
                None => Seq::empty(),
            },
        ),
        (GraphState::Provider, GraphEvent::Answer(transfer)) => match reply_of(transfer) {
            Ok(raw) => (
                GraphState::Storing,
                GraphActionView::Store { file_id, script: script_of(raw) },
            ),
            Err(e) => graph_rejected(e),
        },
        (GraphState::Storing, GraphEvent::Stored(Ok(_))) => (
            GraphState::Closed,
            GraphActionView::Reply(ReplyView::Done),
        ),
        (GraphState::Storing, GraphEvent::Stored(Err(e))) => graph_rejected(e),
        _ => graph_rejected(AppError::Storage),
    }
}

/// The generation of the graph of one file, from the request to the reply.
pub struct GenerateGraph {
    file_id: i32,
    api_key: String,
    state: GraphState,
}

impl GenerateGraph {
    /// The file whose graph is generated.
    pub closed spec fn file_id(&self) -> i32 {
        self.file_id
    }

    /// The credential for the provider.
    pub closed spec fn api_key(&self) -> Seq<char> {
        self.api_key@
    }

    /// Where the generation stands.
    pub closed spec fn state(&self) -> GraphState {
        self.state
    }

    fn ask(&mut self, code: &str) -> (action: GraphAction)
        ensures
            final(self).file_id() == old(self).file_id(),
            final(self).api_key() == old(self).api_key(),
            (final(self).state(), action@) == graph_ask(old(self).api_key(), code@),
    {
        match generate_graph_js(self.api_key.as_str(), code) {
            Ok(request) => {
                self.state = GraphState::Provider;
                GraphAction::Send(request)
            },
            Err(e) => {
                self.state = GraphState::Closed;
                GraphAction::Reply(Reply::Rejected(e))
            },
        }
    }

    /// Takes how the last thing asked for ended and says what to do next.
    pub fn step(&mut self, event: GraphEvent) -> (action: GraphAction)
        ensures
            final(self).file_id() == old(self).file_id(),
            final(self).api_key() == old(self).api_key(),
            (final(self).state(), action@) == graph_step(
                old(self).file_id(),
                old(self).api_key(),
                old(self).state(),
                event,
            ),
    {
        let state = self.state;
        self.state = GraphState::Closed;
        match (state, event) {
            (GraphState::Idle, GraphEvent::Start) => {
                self.state = GraphState::Source;
                GraphAction::FetchSource { file_id: self.file_id }
            },
            (GraphState::Source, GraphEvent::Source(Ok(source))) => match source.content_file {
                Some(code) => self.ask(code.as_str()),
                None => {
                    self.state = GraphState::Disk;
                    GraphAction::ReadFile { path: source.full_path }
                },
            },
            (GraphState::Source, GraphEvent::Source(Err(e))) => GraphAction::Reply(
                Reply::Rejected(e),
            ),
            (GraphState::Storing, GraphEvent::Stored(Err(e))) => GraphAction::Reply(
                Reply::Rejected(e),
            ),
            (GraphState::Disk, GraphEvent::Disk(read)) => {
                let code = match read {
                    Some(code) => code,
                    None => String::new(),
                };
                self.ask(code.as_str())
            },
            (GraphState::Provider, GraphEvent::Answer(transfer)) => match reply_text(&transfer) {
                Ok(raw) => {
                    self.state = GraphState::Storing;
                    GraphAction::Store { file_id: self.file_id, script: graph_script(raw) }
                },
                Err(e) => GraphAction::Reply(Reply::Rejected(e)),
            },
            (GraphState::Storing, GraphEvent::Stored(Ok(_))) => GraphAction::Reply(Reply::Done),
            _ => GraphAction::Reply(Reply::Rejected(AppError::Storage)),
        }
    }
}

/// The generation of the graph of the file `file_id`.
pub fn generate_graph(file_id: i32, api_key: String) -> (g: GenerateGraph)
    ensures
        g.file_id() == file_id,
        g.api_key() == api_key@,
        g.state() == GraphState::Idle,
{
    GenerateGraph { file_id, api_key, state: GraphState::Idle }
}

/// What is shown for the stored graph of a file.
///
/// A failure of storage rejects the request. A file that storage does not
/// know is not found. A script that is missing or
/// blank means that no graph was generated yet; nothing is generated here.
/// Any other script is shown as it is stored. An application without a
/// recorded creation time is shown as created at `now`.
pub open spec fn graph_view_of(row: Result<Option<GraphRow>, AppError>, now: i64) -> ReplyView {
    match row {
        Err(e) => ReplyView::Rejected(e),
        Ok(None) => ReplyView::Html { status: Status::NotFound, body: FILE_NOT_FOUND@ },
        Ok(Some(r)) => {
            let script: Seq<char> = match r.json_graph {
                Some(s) => s@,
                None => Seq::empty(),
            };
            if blank(script) {
                ReplyView::Html { status: Status::Success, body: NO_GRAPH@ }
            } else {
                ReplyView::Graph(
                    GraphPageView {
                        app: AppRowView {
                            id: r.app_id,
                            nama_aplikasi: r.nama_aplikasi@,
                            created_at: match r.created_at {
                                Some(t) => t,
                                None => now,
                            },
                        },
                        file_name: r.nama_file@,
                        graph_js: script,
                    },
                )
            }
        },
    }
}

/// The reply that shows the stored graph of a file, given the row that storage
/// returned for it and the current time.
pub fn view_graph(row: Result<Option<GraphRow>, AppError>, now: i64) -> (reply: Reply)
    ensures
        reply@ == graph_view_of(row, now),
{
    match row {
        Err(e) => Reply::Rejected(e),
        Ok(None) => Reply::Html { status: Status::NotFound, body: FILE_NOT_FOUND.to_owned() },
        Ok(Some(r)) => {
            let script = match r.json_graph {
                Some(s) => s,
                None => String::new(),
            };
            if is_blank(script.as_str()) {
                Reply::Html { status: Status::Success, body: NO_GRAPH.to_owned() }
            } else {
                let created_at = match r.created_at {
                    Some(t) => t,
                    None => now,
                };
                Reply::Graph(
                    GraphPage {
                        app: AppRow { id: r.app_id, nama_aplikasi: r.nama_aplikasi, created_at },
                        file_name: r.nama_file,
                        graph_js: script,
                    },
                )
            }
        },
    }
}

} // verus!
