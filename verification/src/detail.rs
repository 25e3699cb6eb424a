//! The pages of one application: its file listing, page by page and
//! optionally filtered, and the list of all its cached analyses.

use vstd::prelude::*;
use vstd::string::StringExecFns;
use crate::errors::AppError;
use crate::listing::{
    clone_opt, file_summaries, like_pattern, page_window, pagination, pagination_of, pattern_of,
    summaries_of, window_of, FileJoinRow, PageWindow, PER_PAGE,
};
use crate::models::{
    opt_view, AnalysisAllPage, AnalysisJoinRow, AppRow, AppRowView, DetailPage, PageQ,
};
use crate::reply::{join_views, Reply, ReplyView, Status};
use crate::text::{decimal, push_decimal};

verus! {

/// What is shown for an application that storage does not know.
pub open spec fn app_not_found_of(app_id: i32) -> ReplyView {
    ReplyView::Html {
        status: Status::NotFound,
        body: "Aplikasi dengan id "@ + decimal(app_id as int) + " tidak ditemukan."@,
    }
}

/// The reply for an application that storage does not know.
pub fn app_not_found(app_id: i32) -> (reply: Reply)
    ensures
        reply@ == app_not_found_of(app_id),
{
    let mut body = "Aplikasi dengan id ".to_owned();
    push_decimal(&mut body, app_id as i64);
    body.append(" tidak ditemukan.");
    Reply::Html { status: Status::NotFound, body }
}

/// Where the listing of an application stands.
#[derive(Debug)]
pub enum DetailState {
    /// Nothing was asked yet.
    Idle,
    /// The application is being looked up.
    App,
    /// The files that match are being counted.
    Count { app: AppRow },
    /// The rows of the page are being looked up.
    Rows { app: AppRow, total_items: i64, window: PageWindow },
    /// The request was answered.
    Closed,
}

/// `DetailState` as contracts see it: the same fields, with each string as the
/// sequence of its characters.
pub enum DetailStateView {
    Idle,
    App,
    Count { app: AppRowView },
    Rows { app: AppRowView, total_items: i64, window: PageWindow },
    Closed,
}

impl View for DetailState {
    type V = DetailStateView;

    open spec fn view(&self) -> DetailStateView {
        match *self {
            DetailState::Idle => DetailStateView::Idle,
            DetailState::App => DetailStateView::App,
            DetailState::Count { app } => DetailStateView::Count { app: app@ },
            DetailState::Rows { app, total_items, window } => DetailStateView::Rows {
                app: app@,
                total_items,
                window,
            },
            DetailState::Closed => DetailStateView::Closed,
        }
    }
}

/// How what a listing asked for has ended.
#[derive(Debug)]
pub enum DetailEvent {
    /// The caller is ready.
    Start,
    /// The application, if storage knows it.
    App(Result<Option<AppRow>, AppError>),
    /// The number of files that match.
    Count(Result<i64, AppError>),
    /// The rows of the page, ordered by identifier.
    Rows(Result<Vec<FileJoinRow>, AppError>),
}

/// What the caller does next for a listing.
#[derive(Debug)]
pub enum DetailAction {
    /// Look up the application.
    FetchApp { app_id: i32 },
    /// Count the files of the application whose name, folder or path matches
    /// `pattern`, read with `LIKE_ESCAPE` as the escape character; all of its
    /// files where there is no pattern.
    CountFiles { app_id: i32, pattern: Option<String> },
    /// Look up the same files joined with their metadata and analyses, ordered
    /// by identifier: at most `limit` rows behind the first `offset`.
    FetchRows { app_id: i32, pattern: Option<String>, limit: i64, offset: i64 },
    /// Answer the request.
    Reply(Reply),
}

/// `DetailAction` as contracts see it: the same fields, with each string as the
/// sequence of its characters.
pub enum DetailActionView {
    FetchApp { app_id: i32 },
    CountFiles { app_id: i32, pattern: Option<Seq<char>> },
    FetchRows { app_id: i32, pattern: Option<Seq<char>>, limit: i64, offset: i64 },
    Reply(ReplyView),
}

impl View for DetailAction {
    type V = DetailActionView;

    open spec fn view(&self) -> DetailActionView {
        match *self {
            DetailAction::FetchApp { app_id } => DetailActionView::FetchApp { app_id },
            DetailAction::CountFiles { app_id, pattern } => DetailActionView::CountFiles {
                app_id,
                pattern: opt_view(pattern),
            },
            DetailAction::FetchRows { app_id, pattern, limit, offset } => DetailActionView::FetchRows {
                app_id,
                pattern: opt_view(pattern),
                limit,
                offset,
            },
            DetailAction::Reply(reply) => DetailActionView::Reply(reply@),
        }
    }
}

/// The rejection that ends a listing.
pub open spec fn detail_rejected(cause: AppError) -> (DetailStateView, DetailActionView) {
    (DetailStateView::Closed, DetailActionView::Reply(ReplyView::Rejected(cause)))
}

/// The next state and action of a listing.
///
/// An application that storage does not know is not found. Else the files
/// that match the search term are counted, the page asked for is clamped into
/// the pages that the count gives, and the rows of that page are looked up.
/// Each row is shown with previews of its analyses and with its number in the
/// whole filtered listing. A failure of storage rejects the request with that
/// failure, and so does, as a failure of storage, an event that does not
/// answer what was asked.
pub open spec fn detail_step(
    app_id: i32,
    page: Option<usize>,
    term: Option<Seq<char>>,
    state: DetailStateView,
    event: DetailEvent,
) -> (DetailStateView, DetailActionView) {
    match (state, event) {
        (DetailStateView::Idle, DetailEvent::Start) => (
            DetailStateView::App,
            DetailActionView::FetchApp { app_id },
        ),
        (DetailStateView::App, DetailEvent::App(Ok(found))) => match found {
            None => (DetailStateView::Closed, DetailActionView::Reply(app_not_found_of(app_id))),
            Some(app) => (
                DetailStateView::Count { app: app@ },
                DetailActionView::CountFiles { app_id, pattern: pattern_of(term) },
            ),
        },
        (DetailStateView::App, DetailEvent::App(Err(e))) => detail_rejected(e),
        (DetailStateView::Count { app }, DetailEvent::Count(Err(e))) => detail_rejected(e),
        (DetailStateView::Rows { app, total_items, window }, DetailEvent::Rows(Err(e))) => detail_rejected(
            e,
        ),
        (DetailStateView::Count { app }, DetailEvent::Count(Ok(total_items))) => {
            let window = window_of(total_items, page, PER_PAGE);
            (
                DetailStateView::Rows { app, total_items, window },
                DetailActionView::FetchRows {
                    app_id,
                    pattern: pattern_of(term),
                    limit: window.limit,
                    offset: window.offset,
                },
            )
        },
        (DetailStateView::Rows { app, total_items, window }, DetailEvent::Rows(Ok(rows))) => (
            DetailStateView::Closed,
            DetailActionView::Reply(
                ReplyView::Detail {
                    app,
                    files: summaries_of(rows@, window.offset),
                    pagination: pagination_of(window, PER_PAGE, total_items, rows.len()),
                    search: term,
                },
            ),
        ),
        _ => detail_rejected(AppError::Storage),
    }
}

/// The listing of one application, from the request to the reply.
pub struct Detail {
    app_id: i32,
    q: PageQ,
    state: DetailState,
}

impl Detail {
    /// The application that is listed.
    pub closed spec fn app_id(&self) -> i32 {
        self.app_id
    }

    /// The page asked for.
    pub closed spec fn page(&self) -> Option<usize> {
        self.q.page
    }

    /// The search term.
    pub closed spec fn term(&self) -> Option<Seq<char>> {
        opt_view(self.q.q)
    }

    /// Where the listing stands.
    pub closed spec fn state(&self) -> DetailStateView {
        self.state@
    }

    /// A window that is kept while its rows are looked up fits the count it
    /// was made for.
    pub closed spec fn wf(&self) -> bool {
        self.state matches DetailState::Rows { total_items, window, .. } ==> window.fits(
            total_items,
        )
    }

    /// Takes how the last thing asked for ended and says what to do next.
    pub fn step(&mut self, event: DetailEvent) -> (action: DetailAction)
        requires
            old(self).wf(),
        ensures
            final(self).wf(),
            final(self).app_id() == old(self).app_id(),
            final(self).page() == old(self).page(),
            final(self).term() == old(self).term(),
            (final(self).state(), action@) == detail_step(
                old(self).app_id(),
                old(self).page(),
                old(self).term(),
                old(self).state(),
                event,
            ),
    {
        let mut state = DetailState::Closed;
        std::mem::swap(&mut self.state, &mut state);
        match (state, event) {
            (DetailState::Idle, DetailEvent::Start) => {
                self.state = DetailState::App;
                DetailAction::FetchApp { app_id: self.app_id }
            },
            (DetailState::App, DetailEvent::App(Ok(found))) => match found {
                None => DetailAction::Reply(app_not_found(self.app_id)),
                Some(app) => {
                    self.state = DetailState::Count { app };
                    DetailAction::CountFiles { app_id: self.app_id, pattern: like_pattern(&self.q.q) }
                },
            },
            (DetailState::App, DetailEvent::App(Err(e))) => DetailAction::Reply(Reply::Rejected(e)),
            (DetailState::Count { .. }, DetailEvent::Count(Err(e))) => DetailAction::Reply(
                Reply::Rejected(e),
            ),
            (DetailState::Rows { .. }, DetailEvent::Rows(Err(e))) => DetailAction::Reply(
                Reply::Rejected(e),
            ),
            (DetailState::Count { app }, DetailEvent::Count(Ok(total_items))) => {
                let window = page_window(total_items, self.q.page, PER_PAGE);
                self.state = DetailState::Rows { app, total_items, window };
                DetailAction::FetchRows {
                    app_id: self.app_id,
                    pattern: like_pattern(&self.q.q),
                    limit: window.limit,
                    offset: window.offset,
                }
            },
            (DetailState::Rows { app, total_items, window }, DetailEvent::Rows(Ok(rows))) => {
                let files = file_summaries(&rows, window.offset);
                let shown = pagination(window, PER_PAGE, total_items, rows.len());
                DetailAction::Reply(
                    Reply::Detail(
                        DetailPage { app, files, pagination: shown, search: clone_opt(&self.q.q) },
                    ),
                )
            },
            _ => DetailAction::Reply(Reply::Rejected(AppError::Storage)),
        }
    }
}

/// The listing of the application `app_id` for the query `q`.
pub fn app_detail(app_id: i32, q: PageQ) -> (d: Detail)
    ensures
        d.wf(),
        d.app_id() == app_id,
        d.page() == q.page,
        d.term() == opt_view(q.q),
        d.state() == DetailStateView::Idle,
{
    Detail { app_id, q, state: DetailState::Idle }
}

/// Where the list of all analyses of an application stands.
#[derive(Debug)]
pub enum AllState {
    /// Nothing was asked yet.
    Idle,
    /// The application is being looked up.
    App,
    /// The files and their analyses are being looked up.
    Rows { app: AppRow },
    /// The request was answered.
    Closed,
}

/// `AllState` as contracts see it: the same fields, with each string as the
/// sequence of its characters.
pub enum AllStateView {
    Idle,
    App,
    Rows { app: AppRowView },
    Closed,
}

impl View for AllState {
    type V = AllStateView;

    open spec fn view(&self) -> AllStateView {
        match *self {
            AllState::Idle => AllStateView::Idle,
            AllState::App => AllStateView::App,
            AllState::Rows { app } => AllStateView::Rows { app: app@ },
            AllState::Closed => AllStateView::Closed,
        }
    }
}

/// How what the list asked for has ended.
#[derive(Debug)]
pub enum AllEvent {
    /// The caller is ready.
    Start,
    /// The application, if storage knows it.
    App(Result<Option<AppRow>, AppError>),
    /// Every file of the application with its cached analyses, ordered by
    /// identifier.
    Rows(Result<Vec<AnalysisJoinRow>, AppError>),
}

/// What the caller does next for the list.
#[derive(Debug)]
pub enum AllAction {
    /// Look up the application.
    FetchApp { app_id: i32 },
    /// Look up every file of the application joined with its analyses.
    FetchRows { app_id: i32 },
    /// Answer the request.
    Reply(Reply),
}

/// `AllAction` as contracts see it: the same fields, with each string as the
/// sequence of its characters.
pub enum AllActionView {
    FetchApp { app_id: i32 },
    FetchRows { app_id: i32 },
    Reply(ReplyView),
}

impl View for AllAction {
    type V = AllActionView;

    open spec fn view(&self) -> AllActionView {
        match *self {
            AllAction::FetchApp { app_id } => AllActionView::FetchApp { app_id },
            AllAction::FetchRows { app_id } => AllActionView::FetchRows { app_id },
            AllAction::Reply(reply) => AllActionView::Reply(reply@),
        }
    }
}

/// The next state and action of the list of all analyses: an application that
/// storage does not know is not found, any other is shown with the rows that
/// storage returns for it, and a failure of storage rejects the request with
/// that failure; so does, as a failure of storage, an event that does not
/// answer what was asked.
pub open spec fn all_step(app_id: i32, state: AllStateView, event: AllEvent) -> (
    AllStateView,
    AllActionView,
) {
    match (state, event) {
        (AllStateView::Idle, AllEvent::Start) => (AllStateView::App, AllActionView::FetchApp { app_id }),
        (AllStateView::App, AllEvent::App(Ok(found))) => match found {
            None => (AllStateView::Closed, AllActionView::Reply(app_not_found_of(app_id))),
            Some(app) => (AllStateView::Rows { app: app@ }, AllActionView::FetchRows { app_id }),
        },
        (AllStateView::Rows { app }, AllEvent::Rows(Ok(rows))) => (
            AllStateView::Closed,
            AllActionView::Reply(ReplyView::AnalysisAll { app, rows: join_views(rows@) }),
        ),
        (AllStateView::App, AllEvent::App(Err(e))) => (
            AllStateView::Closed,
            AllActionView::Reply(ReplyView::Rejected(e)),
        ),
        (AllStateView::Rows { app }, AllEvent::Rows(Err(e))) => (
            AllStateView::Closed,
            AllActionView::Reply(ReplyView::Rejected(e)),
        ),
        _ => (AllStateView::Closed, AllActionView::Reply(ReplyView::Rejected(AppError::Storage))),
    }
}

/// The list of all analyses of one application, from the request to the reply.
pub struct AnalysisAll {
    app_id: i32,
    state: AllState,
}

impl AnalysisAll {
    /// The application whose analyses are listed.
    pub closed spec fn app_id(&self) -> i32 {
        self.app_id
    }

    /// Where the list stands.
    pub closed spec fn state(&self) -> AllStateView {
        self.state@
    }

    /// Takes how the last thing asked for ended and says what to do next.
    pub fn step(&mut self, event: AllEvent) -> (action: AllAction)
        ensures
            final(self).app_id() == old(self).app_id(),
            (final(self).state(), action@) == all_step(old(self).app_id(), old(self).state(), event),
    {
        let mut state = AllState::Closed;
        std::mem::swap(&mut self.state, &mut state);
        match (state, event) {
            (AllState::Idle, AllEvent::Start) => {
                self.state = AllState::App;
                AllAction::FetchApp { app_id: self.app_id }
            },
            (AllState::App, AllEvent::App(Ok(found))) => match found {
                None => AllAction::Reply(app_not_found(self.app_id)),
                Some(app) => {
                    self.state = AllState::Rows { app };
                    AllAction::FetchRows { app_id: self.app_id }
                },
            },
            (AllState::Rows { app }, AllEvent::Rows(Ok(rows))) => AllAction::Reply(
                Reply::AnalysisAll(AnalysisAllPage { app, rows }),
            ),
            (AllState::App, AllEvent::App(Err(e))) => AllAction::Reply(Reply::Rejected(e)),
            (AllState::Rows { .. }, AllEvent::Rows(Err(e))) => AllAction::Reply(Reply::Rejected(e)),
            _ => AllAction::Reply(Reply::Rejected(AppError::Storage)),
        }
    }
}

/// The list of all analyses of the application `app_id`.
pub fn app_analysis_all(app_id: i32) -> (a: AnalysisAll)
    ensures
        a.app_id() == app_id,
        a.state() == AllStateView::Idle,
{
    AnalysisAll { app_id, state: AllState::Idle }
}

} // verus!
