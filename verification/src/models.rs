//! The rows read from storage and the pages handed to the renderer.
//!
//! Every record has a view: the same fields with each string as the sequence
//! of its characters. Contracts compare records through their views.

use vstd::prelude::*;

verus! {

/// The view of an optional string.
pub open spec fn opt_view(o: Option<String>) -> Option<Seq<char>> {
    match o {
        Some(s) => Some(s@),
        None => None,
    }
}

/// The view of a text that may have failed to come.
pub open spec fn text_result<E>(r: Result<String, E>) -> Result<Seq<char>, E> {
    match r {
        Ok(s) => Ok(s@),
        Err(e) => Err(e),
    }
}

/// Query parameters of the file listing: the requested page and a search term.
#[derive(Debug)]
pub struct PageQ {
    pub page: Option<usize>,
    pub q: Option<String>,
}

/// An application as listed: its identifier, its name and the second, counted
/// from the Unix epoch, at which it was created.
#[derive(Debug)]
pub struct AppRow {
    pub id: i64,
    pub nama_aplikasi: String,
    pub created_at: i64,
}

/// `AppRow` as contracts see it: the same fields, with each string as the
/// sequence of its characters.
pub struct AppRowView {
    pub id: i64,
    pub nama_aplikasi: Seq<char>,
    pub created_at: i64,
}

impl View for AppRow {
    type V = AppRowView;

    open spec fn view(&self) -> AppRowView {
        AppRowView { id: self.id, nama_aplikasi: self.nama_aplikasi@, created_at: self.created_at }
    }
}

/// The list of applications, with the same list serialised for scripts.
#[derive(Debug)]
pub struct IndexPage {
    pub apps: Vec<AppRow>,
    pub json: String,
}

/// The upload form. It carries no data.
#[derive(Debug)]
pub struct UploadPage;

/// One line of the file listing: the file, previews of its three analyses,
/// whether a graph was generated for it, and its number in the whole listing.
#[derive(Debug)]
pub struct FileWithAnalyses {
    pub id: i64,
    pub app_id: i64,
    pub nama_file: String,
    pub nama_folder: Option<String>,
    pub full_path: String,
    pub line_count: Option<i32>,
    pub fungsi_preview: Option<String>,
    pub relasi_file_preview: Option<String>,
    pub relasi_db_preview: Option<String>,
    pub has_graph: bool,
    pub row_no: Option<i64>,
}

/// `FileWithAnalyses` as contracts see it: the same fields, with each string as the
/// sequence of its characters.
pub struct FileWithAnalysesView {
    pub id: i64,
    pub app_id: i64,
    pub nama_file: Seq<char>,
    pub nama_folder: Option<Seq<char>>,
    pub full_path: Seq<char>,
    pub line_count: Option<i32>,
    pub fungsi_preview: Option<Seq<char>>,
    pub relasi_file_preview: Option<Seq<char>>,
    pub relasi_db_preview: Option<Seq<char>>,
    pub has_graph: bool,
    pub row_no: Option<i64>,
}

impl View for FileWithAnalyses {
    type V = FileWithAnalysesView;

    open spec fn view(&self) -> FileWithAnalysesView {
        FileWithAnalysesView {
            id: self.id,
            app_id: self.app_id,
            nama_file: self.nama_file@,
            nama_folder: opt_view(self.nama_folder),
            full_path: self.full_path@,
            line_count: self.line_count,
            fungsi_preview: opt_view(self.fungsi_preview),
            relasi_file_preview: opt_view(self.relasi_file_preview),
            relasi_db_preview: opt_view(self.relasi_db_preview),
            has_graph: self.has_graph,
            row_no: self.row_no,
        }
    }
}

/// Where a page of the listing stands among all pages, and which rows it shows.
#[derive(Debug, PartialEq, Eq, Structural, Clone, Copy)]
pub struct Pagination {
    pub page: usize,
    pub per_page: usize,
    pub total_pages: usize,
    pub total_items: i64,
    pub first: usize,
    pub last: usize,
    pub prev: Option<usize>,
    pub next: Option<usize>,
    pub p_minus2: Option<usize>,
    pub p_minus1: Option<usize>,
    pub p_plus1: Option<usize>,
    pub p_plus2: Option<usize>,
    /// Number of the first row on this page, counted from 1; 0 when there is none.
    pub from: i64,
    /// Number of the last row on this page; 0 when there is none.
    pub to: i64,
}

/// The file listing of one application.
#[derive(Debug)]
pub struct DetailPage {
    pub app: AppRow,
    pub files: Vec<FileWithAnalyses>,
    pub pagination: Pagination,
    pub search: Option<String>,
}

/// One analysis text with where to go back to and where to ask for a new one.
#[derive(Debug)]
pub struct AnalysisPage {
    pub title: String,
    pub content: String,
    pub back_href: String,
    pub force_href: Option<String>,
}

/// `AnalysisPage` as contracts see it: the same fields, with each string as the
/// sequence of its characters.
pub struct AnalysisPageView {
    pub title: Seq<char>,
    pub content: Seq<char>,
    pub back_href: Seq<char>,
    pub force_href: Option<Seq<char>>,
}

impl View for AnalysisPage {
    type V = AnalysisPageView;

    open spec fn view(&self) -> AnalysisPageView {
        AnalysisPageView {
            title: self.title@,
            content: self.content@,
            back_href: self.back_href@,
            force_href: opt_view(self.force_href),
        }
    }
}

/// A file with the line count that the metadata extractor recorded for it.
#[derive(Debug)]
pub struct FileRow {
    pub id: i64,
    pub app_id: i64,
    pub nama_file: String,
    pub nama_folder: Option<String>,
    pub full_path: String,
    pub line_count: Option<i32>,
}

/// An application by identifier and name.
#[derive(Debug)]
pub struct Application {
    pub id: i64,
    pub nama_aplikasi: String,
}

/// A stored file: its application, its name, its folder and its whole path.
#[derive(Debug)]
pub struct FileEntry {
    pub id: i64,
    pub app_id: i64,
    pub nama_file: String,
    pub nama_folder: Option<String>,
    pub full_path: String,
}

/// A file joined with the three analysis texts cached for it.
#[derive(Debug)]
pub struct AnalysisJoinRow {
    pub file_id: i64,
    pub nama_file: String,
    pub full_path: String,
    pub analisa_fungsi: Option<String>,
    pub analisa_relasi_file: Option<String>,
    pub analisa_relasi_db: Option<String>,
}

/// Every file of one application with its cached analyses.
#[derive(Debug)]
pub struct AnalysisAllPage {
    pub app: AppRow,
    pub rows: Vec<AnalysisJoinRow>,
}

/// The generated graph script of one file.
#[derive(Debug)]
pub struct GraphPage {
    pub app: AppRow,
    pub file_name: String,
    pub graph_js: String,
}

/// `GraphPage` as contracts see it: the same fields, with each string as the
/// sequence of its characters.
pub struct GraphPageView {
    pub app: AppRowView,
    pub file_name: Seq<char>,
    pub graph_js: Seq<char>,
}

impl View for GraphPage {
    type V = GraphPageView;

    open spec fn view(&self) -> GraphPageView {
        GraphPageView { app: self.app@, file_name: self.file_name@, graph_js: self.graph_js@ }
    }
}

} // verus!
