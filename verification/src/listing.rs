//! The paginated file listing of one application: which window of rows to ask
//! storage for, and how the rows that come back are shaped for display.
//!
//! Storage filters, orders and cuts the rows; this module only decides the
//! search pattern, the limit and the offset, and numbers what was returned.

use vstd::prelude::*;
use vstd::string::StringExecFns;
use crate::models::{opt_view, FileWithAnalyses, FileWithAnalysesView, Pagination};
use crate::text::{blank, chars_of, is_blank, occurs_at, push_char, truncate_words, truncated};

verus! {

/// Rows shown on one page of the listing.
pub const PER_PAGE: u32 = 25;

/// The character that, in a search pattern, makes the character behind it
/// stand for itself. Storage is told of it with `ESCAPE`.
pub const LIKE_ESCAPE: char = '!';

/// Words kept in the preview of an analysis text.
pub const PREVIEW_WORDS: usize = 50;

/// A file as storage returns it for the listing: joined with its metadata, its
/// cached analyses and its generated graph script.
#[derive(Debug)]
pub struct FileJoinRow {
    pub id: i64,
    pub app_id: i64,
    pub nama_file: String,
    pub nama_folder: Option<String>,
    pub full_path: String,
    pub json_graph: Option<String>,
    pub line_count: Option<i32>,
    pub analisa_fungsi: Option<String>,
    pub analisa_relasi_file: Option<String>,
    pub analisa_relasi_db: Option<String>,
}

/// `FileJoinRow` as contracts see it: the same fields, with each string as the
/// sequence of its characters.
pub struct FileJoinRowView {
    pub id: i64,
    pub app_id: i64,
    pub nama_file: Seq<char>,
    pub nama_folder: Option<Seq<char>>,
    pub full_path: Seq<char>,
    pub json_graph: Option<Seq<char>>,
    pub line_count: Option<i32>,
    pub analisa_fungsi: Option<Seq<char>>,
    pub analisa_relasi_file: Option<Seq<char>>,
    pub analisa_relasi_db: Option<Seq<char>>,
}

impl View for FileJoinRow {
    type V = FileJoinRowView;

    open spec fn view(&self) -> FileJoinRowView {
        FileJoinRowView {
            id: self.id,
            app_id: self.app_id,
            nama_file: self.nama_file@,
            nama_folder: opt_view(self.nama_folder),
            full_path: self.full_path@,
            json_graph: opt_view(self.json_graph),
            line_count: self.line_count,
            analisa_fungsi: opt_view(self.analisa_fungsi),
            analisa_relasi_file: opt_view(self.analisa_relasi_file),
            analisa_relasi_db: opt_view(self.analisa_relasi_db),
        }
    }
}

/// The window of rows to ask storage for.
#[derive(Debug, PartialEq, Eq, Structural, Clone, Copy)]
pub struct PageWindow {
    /// The page shown, counted from 1, after clamping.
    pub page: usize,
    pub total_pages: usize,
    /// Rows to skip before the first row of the page.
    pub offset: i64,
    /// Rows to return at most.
    pub limit: i64,
}

impl PageWindow {
    /// What holds of every window that `page_window` gives for `total_items`
    /// rows: the page lies among the pages, and the offset is the first row of a
    /// page that exists.
    pub open spec fn fits(&self, total_items: i64) -> bool {
        &&& 1 <= self.page <= self.total_pages
        &&& 0 <= self.offset
        &&& total_items > 0 ==> self.offset < total_items
        &&& total_items <= 0 ==> self.offset == 0
    }
}

/// Pages needed for `total` rows at `per_page` rows a page: the quotient
/// rounded up, and one page where there is no row at all.
pub open spec fn page_count(total: int, per_page: int) -> int {
    if total <= 0 {
        1
    } else {
        (total + per_page - 1) / per_page
    }
}

/// `page_count`, held to what a `usize` can count.
pub open spec fn total_pages_of(total: int, per_page: int) -> int {
    if page_count(total, per_page) > usize::MAX {
        usize::MAX as int
    } else {
        page_count(total, per_page)
    }
}

/// The page shown for a request: page 1 when none or page 0 is asked for, the
/// last page when the request lies behind it.
pub open spec fn shown_page(requested: Option<usize>, total_pages: int) -> int {
    let asked: int = match requested {
        Some(p) => p as int,
        None => 1,
    };
    if asked < 1 {
        1
    } else if asked > total_pages {
        total_pages
    } else {
        asked
    }
}

/// The window for `total_items` rows, a requested page and a page size.
pub open spec fn window_of(total_items: i64, requested: Option<usize>, per_page: u32) -> PageWindow {
    let total_pages = total_pages_of(total_items as int, per_page as int);
    let page = shown_page(requested, total_pages);
    PageWindow {
        page: page as usize,
        total_pages: total_pages as usize,
        offset: ((page - 1) * per_page) as i64,
        limit: per_page as i64,
    }
}

/// The smaller of two integers.
pub open spec fn least(a: int, b: int) -> int {
    if a <= b {
        a
    } else {
        b
    }
}

/// The pagination shown under a page of `shown` rows.
pub open spec fn pagination_of(
    window: PageWindow,
    per_page: u32,
    total_items: i64,
    shown: usize,
) -> Pagination {
    let page = window.page;
    let last = window.total_pages;
    Pagination {
        page,
        per_page: per_page as usize,
        total_pages: last,
        total_items,
        first: 1,
        last,
        prev: if page > 1 {
            Some((page - 1) as usize)
        } else {
            None
        },
        next: if page < last {
            Some((page + 1) as usize)
        } else {
            None
        },
        p_minus2: if page > 2 {
            Some((page - 2) as usize)
        } else {
            None
        },
        p_minus1: if page > 1 {
            Some((page - 1) as usize)
        } else {
            None
        },
        p_plus1: if page + 1 <= last {
            Some((page + 1) as usize)
        } else {
            None
        },
        p_plus2: if page + 2 <= last {
            Some((page + 2) as usize)
        } else {
            None
        },
        from: if total_items == 0 {
            0
        } else {
            (window.offset + 1) as i64
        },
        to: if total_items == 0 {
            0
        } else {
            least(window.offset + shown, total_items as int) as i64
        },
    }
}

/// Whether a search pattern reads `c` as something other than itself: the two
/// wildcards and the escape character.
pub open spec fn special(c: char) -> bool {
    c == '%' || c == '_' || c == LIKE_ESCAPE
}

/// `c` as a search pattern that matches `c` and nothing else.
pub open spec fn escaped_char(c: char) -> Seq<char> {
    if special(c) {
        seq![LIKE_ESCAPE, c]
    } else {
        seq![c]
    }
}

/// `term` as a search pattern that matches `term` and nothing else: each
/// wildcard and each escape character in it has the escape character before
/// it.
pub open spec fn escaped(term: Seq<char>) -> Seq<char>
    decreases term.len(),
{
    if term.len() == 0 {
        Seq::empty()
    } else {
        escaped_char(term[0]) + escaped(term.drop_first())
    }
}

/// The search pattern for a term: the escaped term between two `%` signs, so
/// that storage finds the term itself anywhere in a name, a folder or a path.
pub open spec fn pattern_of(term: Option<Seq<char>>) -> Option<Seq<char>> {
    match term {
        Some(t) => Some(seq!['%'] + escaped(t) + seq!['%']),
        None => None,
    }
}

/// Whether `text` matches `pattern` as SQL's `LIKE` reads it with
/// `LIKE_ESCAPE` as the escape character, under a collation that tells all
/// characters apart: `%` stands for any run of characters, `_` for any one
/// character, the character behind an escape character for itself, and any
/// other character for itself.
pub open spec fn like(pattern: Seq<char>, text: Seq<char>) -> bool
    decreases pattern.len(),
{
    if pattern.len() == 0 {
        text.len() == 0
    } else if pattern[0] == LIKE_ESCAPE && pattern.len() >= 2 {
        text.len() > 0 && text[0] == pattern[1] && like(pattern.skip(2), text.skip(1))
    } else if pattern[0] == '%' {
        exists|k: int| 0 <= k <= text.len() && like(pattern.skip(1), #[trigger] text.skip(k))
    } else if pattern[0] == '_' {
        text.len() > 0 && like(pattern.skip(1), text.skip(1))
    } else {
        text.len() > 0 && text[0] == pattern[0] && like(pattern.skip(1), text.skip(1))
    }
}

/// The preview of an optional analysis text.
pub open spec fn preview_of(text: Option<Seq<char>>) -> Option<Seq<char>> {
    match text {
        Some(t) => Some(truncated(t, PREVIEW_WORDS as nat)),
        None => None,
    }
}

/// Whether a stored graph script counts as generated: it is there and is not
/// blank.
pub open spec fn graph_present(script: Option<Seq<char>>) -> bool {
    match script {
        Some(s) => !blank(s),
        None => false,
    }
}

/// The number, counted from 1 over the whole filtered listing, of the row at
/// `index` on a page that starts behind `offset` rows; none where an `i64`
/// cannot hold it.
pub open spec fn row_number(offset: i64, index: nat) -> Option<i64> {
    if offset + index + 1 <= i64::MAX {
        Some((offset + index + 1) as i64)
    } else {
        None
    }
}

/// The listing line for `row`, the `index`-th row of its page.
pub open spec fn summary_of(row: FileJoinRowView, offset: i64, index: nat) -> FileWithAnalysesView {
    FileWithAnalysesView {
        id: row.id,
        app_id: row.app_id,
        nama_file: row.nama_file,
        nama_folder: row.nama_folder,
        full_path: row.full_path,
        line_count: row.line_count,
        fungsi_preview: preview_of(row.analisa_fungsi),
        relasi_file_preview: preview_of(row.analisa_relasi_file),
        relasi_db_preview: preview_of(row.analisa_relasi_db),
        has_graph: graph_present(row.json_graph),
        row_no: row_number(offset, index),
    }
}

/// The views of listing lines.
pub open spec fn file_views(files: Seq<FileWithAnalyses>) -> Seq<FileWithAnalysesView> {
    files.map_values(|f: FileWithAnalyses| f@)
}

/// The listing lines for the rows of one page.
pub open spec fn summaries_of(rows: Seq<FileJoinRow>, offset: i64) -> Seq<FileWithAnalysesView> {
    Seq::new(rows.len(), |i: int| summary_of(rows[i]@, offset, i as nat))
}

/// A copy of an optional string.
pub fn clone_opt(o: &Option<String>) -> (r: Option<String>)
    ensures
        opt_view(r) == opt_view(*o),
{
    match o {
        Some(s) => Some(s.clone()),
        None => None,
    }
}

/// Escaping a term that ends in `c` is escaping what stands before `c` and
/// then `c`.
pub proof fn lemma_escaped_push(term: Seq<char>, c: char)
    ensures
        escaped(term.push(c)) == escaped(term) + escaped_char(c),
    decreases term.len(),
{
    let grown = term.push(c);
    if term.len() == 0 {
        assert(grown[0] == c);
        assert(grown.drop_first().len() == 0);
        assert(escaped(grown.drop_first()) =~= Seq::<char>::empty());
        assert(escaped(grown) =~= escaped_char(c));
        assert(escaped(term) + escaped_char(c) =~= escaped_char(c));
    } else {
        assert(grown.drop_first() =~= term.drop_first().push(c));
        lemma_escaped_push(term.drop_first(), c);
        assert(escaped(grown) =~= escaped(term) + escaped_char(c));
    }
}

/// A text matches an escaped term followed by `rest` exactly when it starts
/// with the term and what stands behind the term matches `rest`.
pub proof fn lemma_like_escaped(term: Seq<char>, rest: Seq<char>, text: Seq<char>)
    ensures
        like(escaped(term) + rest, text) <==> (term.len() <= text.len() && text.take(
            term.len() as int,
        ) == term && like(rest, text.skip(term.len() as int))),
    decreases term.len(),
{
    let pattern = escaped(term) + rest;
    if term.len() == 0 {
        assert(pattern =~= rest);
        assert(text.take(0) =~= term);
        assert(text.skip(0) =~= text);
    } else {
        let c = term[0];
        let tail = term.drop_first();
        let after = escaped(tail) + rest;
        lemma_like_escaped(tail, rest, text.skip(1));
        if special(c) {
            assert(pattern =~= seq![LIKE_ESCAPE, c] + after);
            assert(pattern.skip(2) =~= after);
            assert(pattern[0] == LIKE_ESCAPE && pattern[1] == c);
        } else {
            assert(pattern =~= seq![c] + after);
            assert(pattern.skip(1) =~= after);
            assert(pattern[0] == c);
        }
        assert(like(pattern, text) <==> (text.len() > 0 && text[0] == c && like(
            after,
            text.skip(1),
        )));
        if text.len() > 0 && term.len() <= text.len() {
            assert(text.skip(1).skip(tail.len() as int) =~= text.skip(term.len() as int));
            let head = text.take(term.len() as int);
            let inner = text.skip(1).take(tail.len() as int);
            assert(inner =~= head.drop_first());
            assert(head[0] == text[0]);
            if text[0] == c && inner == tail {
                assert forall|j: int| 0 <= j < term.len() implies head[j] == term[j] by {
                    if j > 0 {
                        assert(head[j] == inner[j - 1]);
                        assert(term[j] == tail[j - 1]);
                    }
                }
                assert(head =~= term);
            }
            if head == term {
                assert(inner =~= tail);
            }
        }
    }
}

/// The search pattern of a term finds the term and nothing else: a text
/// matches it exactly when the term stands somewhere in the text, whatever
/// characters the term holds.
pub proof fn lemma_pattern_finds_term(term: Seq<char>, text: Seq<char>)
    ensures
        like(pattern_of(Some(term))->0, text) <==> exists|i: int| occurs_at(text, term, i),
{
    let any = seq!['%'];
    let inner = escaped(term) + any;
    let pattern = seq!['%'] + escaped(term) + seq!['%'];
    assert(pattern =~= seq!['%'] + inner);
    assert(pattern.skip(1) =~= inner);
    assert(pattern[0] == '%');
    assert forall|k: int| 0 <= k <= text.len() implies (like(inner, #[trigger] text.skip(k))
        <==> occurs_at(text, term, k)) by {
        let here = text.skip(k);
        lemma_like_escaped(term, any, here);
        if term.len() <= here.len() {
            let behind = here.skip(term.len() as int);
            assert(any.skip(1).len() == 0);
            assert(behind.skip(behind.len() as int).len() == 0);
            assert(like(any.skip(1), behind.skip(behind.len() as int)));
            assert(like(any, behind));
            assert(here.take(term.len() as int) =~= text.subrange(k, k + term.len()));
        }
    }
    if like(pattern, text) {
        let k = choose|k: int| 0 <= k <= text.len() && like(pattern.skip(1), #[trigger] text.skip(k));
        assert(occurs_at(text, term, k));
    }
    if exists|i: int| occurs_at(text, term, i) {
        let i = choose|i: int| occurs_at(text, term, i);
        assert(like(inner, text.skip(i)));
    }
}

/// The search pattern that storage is asked to match with `LIKE_ESCAPE` as the
/// escape character, if a term was given.
pub fn like_pattern(term: &Option<String>) -> (r: Option<String>)
    ensures
        opt_view(r) == pattern_of(opt_view(*term)),
{
    match term {
        Some(t) => {
            let v = chars_of(t.as_str());
            let mut p = String::new();
            push_char(&mut p, '%');
            let mut i: usize = 0;
            while i < v.len()
                invariant
                    i <= v.len(),
                    p@ == seq!['%'] + escaped(v@.take(i as int)),
                decreases v.len() - i,
            {
                let c = v[i];
                proof {
                    lemma_escaped_push(v@.take(i as int), c);
                    assert(v@.take(i + 1) =~= v@.take(i as int).push(c));
                }
                if c == '%' || c == '_' || c == LIKE_ESCAPE {
                    push_char(&mut p, LIKE_ESCAPE);
                }
                push_char(&mut p, c);
                proof {
                    assert(p@ =~= seq!['%'] + escaped(v@.take(i + 1)));
                }
                i += 1;
            }
            push_char(&mut p, '%');
            proof {
                assert(v@.take(v.len() as int) =~= v@);
                assert(p@ =~= seq!['%'] + escaped(t@) + seq!['%']);
            }
            Some(p)
        },
        None => None,
    }
}

/// Rounding up by adding `p - 1` before dividing is dividing `t - 1` and
/// adding one.
proof fn lemma_round_up(t: int, p: int)
    requires
        t >= 1,
        p >= 1,
    ensures
        (t + p - 1) / p == (t - 1) / p + 1,
        ((t - 1) / p) * p <= t - 1,
        (t - 1) / p >= 0,
{
    vstd::arithmetic::div_mod::lemma_div_plus_one(t - 1, p);
    vstd::arithmetic::div_mod::lemma_fundamental_div_mod(t - 1, p);
    vstd::arithmetic::div_mod::lemma_mod_bound(t - 1, p);
    vstd::arithmetic::div_mod::lemma_div_pos_is_pos(t - 1, p);
    assert(((t - 1) / p) * p == p * ((t - 1) / p)) by (nonlinear_arith);
}

/// Which rows to ask storage for, given the number of rows that match, the
/// page asked for and the page size.
///
/// The page is clamped into `1..=total_pages`, and there is always at least
/// one page.
pub fn page_window(total_items: i64, requested: Option<usize>, per_page: u32) -> (w: PageWindow)
    requires
        per_page > 0,
    ensures
        w == window_of(total_items, requested, per_page),
        w.fits(total_items),
        w.offset == (w.page - 1) * per_page,
{
    let per: i64 = per_page as i64;
    let pages: i64 = if total_items <= 0 {
        1
    } else {
        proof {
            lemma_round_up(total_items as int, per as int);
        }
        (total_items - 1) / per + 1
    };
    let total_pages: usize = if pages as u64 > usize::MAX as u64 {
        usize::MAX
    } else {
        pages as usize
    };
    let asked: usize = match requested {
        Some(p) => p,
        None => 1,
    };
    let page: usize = if asked < 1 {
        1
    } else if asked > total_pages {
        total_pages
    } else {
        asked
    };
    proof {
        let skipped: int = page - 1;
        if total_items > 0 {
            let full: int = (total_items - 1) / (per as int);
            lemma_round_up(total_items as int, per as int);
            assert(skipped * per <= full * per) by (nonlinear_arith)
                requires
                    0 <= skipped <= full,
                    per > 0,
            ;
        } else {
            assert(skipped * per == 0) by (nonlinear_arith)
                requires
                    skipped == 0,
            ;
        }
        assert(0 <= skipped * per) by (nonlinear_arith)
            requires
                skipped >= 0,
                per > 0,
        ;
    }
    let offset: i64 = (page as i64 - 1) * per;
    PageWindow { page, total_pages, offset, limit: per }
}

/// The pagination to show under a page on which storage returned `shown` rows.
pub fn pagination(window: PageWindow, per_page: u32, total_items: i64, shown: usize) -> (p: Pagination)
    requires
        window.fits(total_items),
    ensures
        p == pagination_of(window, per_page, total_items, shown),
{
    let page = window.page;
    let last = window.total_pages;
    let prev = if page > 1 {
        Some(page - 1)
    } else {
        None
    };
    let next = if page < last {
        Some(page + 1)
    } else {
        None
    };
    let p_minus2 = if page > 2 {
        Some(page - 2)
    } else {
        None
    };
    let p_plus2 = if last - page >= 2 {
        Some(page + 2)
    } else {
        None
    };
    let from: i64 = if total_items == 0 {
        0
    } else {
        window.offset + 1
    };
    let to: i64 = if total_items == 0 {
        0
    } else {
        let reach: i128 = window.offset as i128 + shown as i128;
        if reach <= total_items as i128 {
            reach as i64
        } else {
            total_items
        }
    };
    Pagination {
        page,
        per_page: per_page as usize,
        total_pages: last,
        total_items,
        first: 1,
        last,
        prev,
        next,
        p_minus2,
        p_minus1: prev,
        p_plus1: next,
        p_plus2,
        from,
        to,
    }
}

/// The preview of an optional analysis text.
pub fn preview(text: &Option<String>) -> (r: Option<String>)
    ensures
        opt_view(r) == preview_of(opt_view(*text)),
{
    match text {
        Some(t) => Some(truncate_words(t.as_str(), PREVIEW_WORDS)),
        None => None,
    }
}

/// Whether a stored graph script counts as generated.
pub fn has_graph(script: &Option<String>) -> (b: bool)
    ensures
        b == graph_present(opt_view(*script)),
{
    match script {
        Some(s) => !is_blank(s.as_str()),
        None => false,
    }
}

/// The listing line for the `index`-th row of a page that starts behind
/// `offset` rows.
pub fn file_summary(row: &FileJoinRow, offset: i64, index: usize) -> (f: FileWithAnalyses)
    ensures
        f@ == summary_of(row@, offset, index as nat),
{
    let number: i128 = offset as i128 + index as i128 + 1;
    let row_no: Option<i64> = if number <= i64::MAX as i128 {
        Some(number as i64)
    } else {
        None
    };
    FileWithAnalyses {
        id: row.id,
        app_id: row.app_id,
        nama_file: row.nama_file.clone(),
        nama_folder: clone_opt(&row.nama_folder),
        full_path: row.full_path.clone(),
        line_count: row.line_count,
        fungsi_preview: preview(&row.analisa_fungsi),
        relasi_file_preview: preview(&row.analisa_relasi_file),
        relasi_db_preview: preview(&row.analisa_relasi_db),
        has_graph: has_graph(&row.json_graph),
        row_no,
    }
}

/// The listing lines for the rows of one page, in the order storage returned
/// them, each with its number in the whole listing.
pub fn file_summaries(rows: &Vec<FileJoinRow>, offset: i64) -> (files: Vec<FileWithAnalyses>)
    ensures
        file_views(files@) == summaries_of(rows@, offset),
{
    let mut files: Vec<FileWithAnalyses> = Vec::new();
    let mut i: usize = 0;
    while i < rows.len()
        invariant
            i <= rows.len(),
            files.len() == i,
            forall|k: int|
                0 <= k < i ==> (#[trigger] files[k])@ == summary_of(rows[k]@, offset, k as nat),
        decreases rows.len() - i,
    {
        let f = file_summary(&rows[i], offset, i);
        files.push(f);
        i += 1;
    }
    proof {
        assert(file_views(files@) =~= summaries_of(rows@, offset));
    }
    files
}

/// The numbers under a page agree with the numbers of its rows: where storage
/// returns rows for a window and none of them lies behind the total, the first
/// row carries the number `from`, the last row carries the number `to`, and
/// the rows between them are numbered without a gap.
pub proof fn lemma_rows_match_pagination(
    total_items: i64,
    requested: Option<usize>,
    per_page: u32,
    rows: Seq<FileJoinRow>,
)
    requires
        per_page > 0,
        0 < rows.len() <= usize::MAX,
        window_of(total_items, requested, per_page).offset + rows.len() <= total_items,
        window_of(total_items, requested, per_page).fits(total_items),
    ensures
        ({
            let window = window_of(total_items, requested, per_page);
            let lines = summaries_of(rows, window.offset);
            let shown = pagination_of(window, per_page, total_items, rows.len() as usize);
            &&& lines.len() == rows.len()
            &&& lines[0].row_no == Some(shown.from)
            &&& lines[rows.len() - 1].row_no == Some(shown.to)
            &&& forall|i: int|
                0 <= i < rows.len() ==> (#[trigger] lines[i]).row_no == Some(
                    (shown.from + i) as i64,
                )
        }),
{
}

} // verus!
