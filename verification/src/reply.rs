//! What a request is answered with: a page to render, a fragment of HTML, a
//! JSON object, a redirect, or a rejection.

use vstd::prelude::*;
use crate::errors::AppError;
use crate::listing::file_views;
use crate::models::{
    AnalysisAllPage, AnalysisJoinRow, AnalysisPage, AnalysisPageView, AppRow, AppRowView,
    DetailPage, FileWithAnalysesView, GraphPage, GraphPageView, IndexPage, Pagination, UploadPage,
    opt_view,
};

verus! {

/// The status of a response.
#[derive(Debug, PartialEq, Eq, Structural, Clone, Copy)]
pub enum Status {
    /// 200.
    Success,
    /// 404.
    NotFound,
    /// 500.
    InternalServerError,
}

/// The answer to one request.
#[derive(Debug)]
pub enum Reply {
    Index(IndexPage),
    Upload(UploadPage),
    Detail(DetailPage),
    Analysis(AnalysisPage),
    AnalysisAll(AnalysisAllPage),
    Graph(GraphPage),
    /// A fragment of HTML.
    Html { status: Status, body: String },
    /// The JSON object `{"title": .., "content": ..}`, with status `Success`.
    Content { title: String, content: String },
    /// The JSON object `{"error": .., "message": ..}`.
    Failure { status: Status, error: String, message: String },
    /// The JSON object `{"ok": true}`, with status `Success`.
    Done,
    /// A redirect to `location`.
    Redirect { location: String },
    /// The request is rejected for this reason.
    Rejected(AppError),
}

/// `AnalysisJoinRow` as contracts see it: the same fields, with each string as the
/// sequence of its characters.
pub struct AnalysisJoinRowView {
    pub file_id: i64,
    pub nama_file: Seq<char>,
    pub full_path: Seq<char>,
    pub analisa_fungsi: Option<Seq<char>>,
    pub analisa_relasi_file: Option<Seq<char>>,
    pub analisa_relasi_db: Option<Seq<char>>,
}

impl View for AnalysisJoinRow {
    type V = AnalysisJoinRowView;

    open spec fn view(&self) -> AnalysisJoinRowView {
        AnalysisJoinRowView {
            file_id: self.file_id,
            nama_file: self.nama_file@,
            full_path: self.full_path@,
            analisa_fungsi: opt_view(self.analisa_fungsi),
            analisa_relasi_file: opt_view(self.analisa_relasi_file),
            analisa_relasi_db: opt_view(self.analisa_relasi_db),
        }
    }
}

/// The views of application rows.
pub open spec fn app_views(apps: Seq<AppRow>) -> Seq<AppRowView> {
    apps.map_values(|a: AppRow| a@)
}

/// The views of joined analysis rows.
pub open spec fn join_views(rows: Seq<AnalysisJoinRow>) -> Seq<AnalysisJoinRowView> {
    rows.map_values(|r: AnalysisJoinRow| r@)
}

/// `Reply` as contracts see it: the same fields, with each string as the
/// sequence of its characters.
pub enum ReplyView {
    Index { apps: Seq<AppRowView>, json: Seq<char> },
    Upload,
    Detail {
        app: AppRowView,
        files: Seq<FileWithAnalysesView>,
        pagination: Pagination,
        search: Option<Seq<char>>,
    },
    Analysis(AnalysisPageView),
    AnalysisAll { app: AppRowView, rows: Seq<AnalysisJoinRowView> },
    Graph(GraphPageView),
    Html { status: Status, body: Seq<char> },
    Content { title: Seq<char>, content: Seq<char> },
    Failure { status: Status, error: Seq<char>, message: Seq<char> },
    Done,
    Redirect { location: Seq<char> },
    Rejected(AppError),
}

impl View for Reply {
    type V = ReplyView;

    open spec fn view(&self) -> ReplyView {
        match *self {
            Reply::Index(page) => ReplyView::Index { apps: app_views(page.apps@), json: page.json@ },
            Reply::Upload(_) => ReplyView::Upload,
            Reply::Detail(page) => ReplyView::Detail {
                app: page.app@,
                files: file_views(page.files@),
                pagination: page.pagination,
                search: opt_view(page.search),
            },
            Reply::Analysis(page) => ReplyView::Analysis(page@),
            Reply::AnalysisAll(page) => ReplyView::AnalysisAll {
                app: page.app@,
                rows: join_views(page.rows@),
            },
            Reply::Graph(page) => ReplyView::Graph(page@),
            Reply::Html { status, body } => ReplyView::Html { status, body: body@ },
            Reply::Content { title, content } => ReplyView::Content {
                title: title@,
                content: content@,
            },
            Reply::Failure { status, error, message } => ReplyView::Failure {
                status,
                error: error@,
                message: message@,
            },
            Reply::Done => ReplyView::Done,
            Reply::Redirect { location } => ReplyView::Redirect { location: location@ },
            Reply::Rejected(cause) => ReplyView::Rejected(cause),
        }
    }
}

} // verus!
