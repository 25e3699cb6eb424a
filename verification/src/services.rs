//! Ingestion: from the bytes of an uploaded zip archive to the rows of one
//! application and its files, written in one transaction.
//!
//! `ArchiveIngestor` walks the archive and stages one file at a time.
//! `Ingest` decides, statement by statement, what the transaction does next;
//! the caller runs each statement and reports how it ended.

use vstd::prelude::*;
use vstd::utf8::{decode_utf8, encode_utf8, is_char_boundary, valid_utf8};
use vstd::string::StringSliceAdditionalSpecFns;
use crate::archive::{
    archive_len, archive_source, entry_data, entry_head, open_archive, zip_data, zip_head, zip_len,
    zip_opens,
};
use crate::errors::AppError;
use crate::models::opt_view;

verus! {

/// Bytes of one file that are kept: 512 KB.
pub const MAX_FILE_BYTES: usize = 524288;

/// The final component of `path`, as `Path::file_name` of the target platform
/// gives it.
pub uninterp spec fn path_file_name(path: Seq<char>) -> Option<Seq<char>>;

/// `path` without its final component, as `Path::parent` of the target
/// platform gives it.
pub uninterp spec fn path_parent(path: Seq<char>) -> Option<Seq<char>>;

/// The text that `String::from_utf8_lossy` reads from `bytes`: their decoding,
/// with each invalid sequence replaced by U+FFFD. Contracts speak of it only
/// for bytes that are no valid UTF-8; see `decoded`.
pub uninterp spec fn utf8_lossy(bytes: Seq<u8>) -> Seq<char>;

/// Calls `Path::file_name` on `path` and copies the component into a string.
#[verifier::external_body]
fn file_name_of(path: &str) -> (r: Option<String>)
    ensures
        opt_view(r) == path_file_name(path@),
{
    std::path::Path::new(path).file_name().map(|s| s.to_string_lossy().into_owned())
}

/// Calls `Path::parent` on `path` and copies the parent into a string.
#[verifier::external_body]
fn parent_of(path: &str) -> (r: Option<String>)
    ensures
        opt_view(r) == path_parent(path@),
{
    std::path::Path::new(path).parent().map(|p| p.to_string_lossy().into_owned())
}

/// Calls `String::from_utf8_lossy`. Bytes that are valid UTF-8 come back as
/// the text they encode; other bytes come back with replacement characters,
/// which the contract only names.
#[verifier::external_body]
fn decode_lossy(bytes: &[u8]) -> (s: String)
    ensures
        s@ == utf8_lossy(bytes@),
        valid_utf8(bytes@) ==> s@ == decode_utf8(bytes@),
{
    String::from_utf8_lossy(bytes).into_owned()
}

/// A file read from the archive and ready to be stored.
#[derive(Debug)]
pub struct StagedFile {
    pub nama_file: String,
    pub folder: Option<String>,
    pub full_path: String,
    /// The text of the file, cut to the byte cap; nothing for an empty file.
    pub content_file: Option<String>,
}

/// `StagedFile` as contracts see it: the same fields, with each string as the
/// sequence of its characters.
pub struct StagedFileView {
    pub nama_file: Seq<char>,
    pub folder: Option<Seq<char>>,
    pub full_path: Seq<char>,
    pub content_file: Option<Seq<char>>,
}

impl View for StagedFile {
    type V = StagedFileView;

    open spec fn view(&self) -> StagedFileView {
        StagedFileView {
            nama_file: self.nama_file@,
            folder: opt_view(self.folder),
            full_path: self.full_path@,
            content_file: opt_view(self.content_file),
        }
    }
}

/// The text that the bytes of a file are read as: the text they encode where
/// they are valid UTF-8, and what `String::from_utf8_lossy` makes of them
/// otherwise.
pub open spec fn decoded(bytes: Seq<u8>) -> Seq<char> {
    if valid_utf8(bytes) {
        decode_utf8(bytes)
    } else {
        utf8_lossy(bytes)
    }
}

/// The greatest character boundary of `bytes` that is at most `at`.
pub open spec fn floor_boundary(bytes: Seq<u8>, at: int) -> int
    decreases at,
{
    if at <= 0 {
        0
    } else if is_char_boundary(bytes, at) {
        at
    } else {
        floor_boundary(bytes, at - 1)
    }
}

/// `text`, cut so that its UTF-8 encoding has at most `cap` bytes: the whole
/// text where it fits, else its longest prefix that does.
pub open spec fn bounded(text: Seq<char>, cap: nat) -> Seq<char> {
    let bytes = encode_utf8(text);
    if bytes.len() <= cap {
        text
    } else {
        decode_utf8(bytes.subrange(0, floor_boundary(bytes, cap as int)))
    }
}

/// The file staged for an entry stored under `path` whose reading gave `data`.
pub open spec fn staged_of(path: Seq<char>, data: Seq<u8>, cap: nat) -> StagedFileView {
    StagedFileView {
        nama_file: match path_file_name(path) {
            Some(name) => name,
            None => Seq::empty(),
        },
        folder: path_parent(path),
        full_path: path,
        content_file: if data.len() == 0 {
            None
        } else {
            Some(bounded(decoded(data), cap))
        },
    }
}

/// A floor boundary lies between 0 and `at`, is a boundary, and no boundary
/// lies between it and `at`.
pub proof fn lemma_floor_boundary(bytes: Seq<u8>, at: int)
    requires
        valid_utf8(bytes),
        0 <= at,
    ensures
        0 <= floor_boundary(bytes, at) <= at,
        is_char_boundary(bytes, floor_boundary(bytes, at)),
        forall|j: int| floor_boundary(bytes, at) < j <= at ==> !is_char_boundary(bytes, j),
    decreases at,
{
    if at > 0 && !is_char_boundary(bytes, at) {
        lemma_floor_boundary(bytes, at - 1);
    }
}

/// Bounded text fits the cap and is the start of the text it was cut from;
/// where the cap falls on a character boundary it holds exactly `cap` bytes.
pub proof fn lemma_bounded(text: Seq<char>, cap: nat)
    ensures
        encode_utf8(bounded(text, cap)).len() <= cap,
        bounded(text, cap).is_prefix_of(text),
        encode_utf8(text).len() <= cap ==> bounded(text, cap) == text,
        encode_utf8(text).len() > cap && is_char_boundary(encode_utf8(text), cap as int) ==> encode_utf8(
            bounded(text, cap),
        ).len() == cap,
{
    broadcast use
        vstd::utf8::encode_utf8_valid_utf8,
        vstd::utf8::encode_utf8_decode_utf8,
        vstd::utf8::decode_utf8_encode_utf8,
    ;

    let bytes = encode_utf8(text);
    if bytes.len() > cap {
        let k = floor_boundary(bytes, cap as int);
        lemma_floor_boundary(bytes, cap as int);
        vstd::utf8::valid_utf8_split(bytes, k);
        vstd::utf8::decode_utf8_split(bytes, k);
        let head = bytes.subrange(0, k);
        assert(encode_utf8(decode_utf8(head)) == head);
        assert(decode_utf8(bytes) == text);
        let tail = decode_utf8(bytes.subrange(k, bytes.len() as int));
        assert(text =~= decode_utf8(head) + tail);
        assert(decode_utf8(head) =~= text.subrange(0, decode_utf8(head).len() as int));
    }
}

/// The text staged for a file never holds more than `cap` bytes.
pub proof fn lemma_staged_content_fits(path: Seq<char>, data: Seq<u8>, cap: nat)
    ensures
        staged_of(path, data, cap).content_file matches Some(text) ==> encode_utf8(text).len()
            <= cap,
        data.len() == 0 <==> staged_of(path, data, cap).content_file is None,
{
    lemma_bounded(decoded(data), cap);
}

/// A file of valid UTF-8 that fits the cap is staged as the text it encodes,
/// whole. A longer one is staged as the start of that text.
pub proof fn lemma_valid_content_is_kept(path: Seq<char>, data: Seq<u8>, cap: nat)
    requires
        valid_utf8(data),
        data.len() > 0,
    ensures
        data.len() <= cap ==> staged_of(path, data, cap).content_file == Some(decode_utf8(data)),
        staged_of(path, data, cap).content_file matches Some(text) && text.is_prefix_of(
            decode_utf8(data),
        ),
        is_char_boundary(data, cap as int) && data.len() > cap ==> staged_of(
            path,
            data,
            cap,
        ).content_file == Some(decode_utf8(data.subrange(0, cap as int))),
{
    broadcast use vstd::utf8::decode_utf8_encode_utf8;

    lemma_bounded(decode_utf8(data), cap);
    assert(encode_utf8(decode_utf8(data)) == data);
    if is_char_boundary(data, cap as int) && data.len() > cap {
        assert(floor_boundary(data, cap as int) == cap);
    }
}

/// `text`, cut so that it holds at most `cap` bytes and no character is split.
pub fn bound_text(text: String, cap: usize) -> (r: String)
    ensures
        r@ == bounded(text@, cap as nat),
        encode_utf8(r@).len() <= cap,
{
    broadcast use
        vstd::utf8::encode_utf8_valid_utf8,
        vstd::utf8::encode_utf8_decode_utf8,
        vstd::utf8::is_char_boundary_start_end_of_seq,
    ;

    let ghost bytes = encode_utf8(text@);
    if text.as_str().as_bytes().len() <= cap {
        return text;
    }
    let s = text.as_str();
    let mut k: usize = cap;
    while !s.is_char_boundary(k)
        invariant
            k <= cap,
            s@ == text@,
            bytes == encode_utf8(text@),
            cap < bytes.len(),
            is_char_boundary(bytes, 0),
            floor_boundary(bytes, k as int) == floor_boundary(bytes, cap as int),
        decreases k,
    {
        k -= 1;
    }
    let (head, _) = s.split_at(k);
    proof {
        assert(head.spec_bytes() == bytes.subrange(0, k as int));
        assert(decode_utf8(encode_utf8(head@)) == head@);
    }
    head.to_owned()
}

/// Stages the entry stored under `path` whose reading gave `data`: its name
/// and folder are the last component of the path and what stands before it,
/// and its content is the text of `data`, cut to `cap` bytes, or nothing for
/// an empty file.
pub fn stage_file(path: String, data: &Vec<u8>, cap: usize) -> (f: StagedFile)
    ensures
        f@ == staged_of(path@, data@, cap as nat),
        valid_utf8(data@) && 0 < data.len() <= cap ==> opt_view(f.content_file) == Some(
            decode_utf8(data@),
        ),
{
    proof {
        if valid_utf8(data@) && data.len() > 0 {
            lemma_valid_content_is_kept(path@, data@, cap as nat);
        }
    }
    let nama_file = match file_name_of(path.as_str()) {
        Some(name) => name,
        None => String::new(),
    };
    let folder = parent_of(path.as_str());
    let content_file = if data.len() == 0 {
        None
    } else {
        Some(bound_text(decode_lossy(data.as_slice()), cap))
    };
    StagedFile { nama_file, folder, full_path: path, content_file }
}

/// What the walk makes of one entry: it passes over it, stages a file for it,
/// or fails on it.
pub enum EntryYield {
    /// The entry is a directory, or its name gives no safe path.
    Skip,
    /// The entry is a file, staged as this.
    File(StagedFileView),
    /// The entry cannot be opened or read.
    Fail,
}

/// What the walk makes of the entry at `index`.
///
/// An entry that cannot be opened fails the walk. A directory is skipped, and
/// so is an entry whose name gives no safe path. Any other entry is read, up
/// to `cap` bytes, and staged; where it cannot be read the walk fails.
pub open spec fn entry_yield(bytes: Seq<u8>, index: nat, cap: nat) -> EntryYield {
    match zip_head(bytes, index) {
        None => EntryYield::Fail,
        Some((is_dir, path)) => if is_dir {
            EntryYield::Skip
        } else {
            match path {
                None => EntryYield::Skip,
                Some(p) => match zip_data(bytes, index, cap) {
                    None => EntryYield::Fail,
                    Some(data) => EntryYield::File(staged_of(p, data, cap)),
                },
            }
        },
    }
}

/// The first index at or behind `from` whose entry is not skipped, or the
/// number of entries where every entry from there on is skipped.
pub open spec fn next_stop(bytes: Seq<u8>, from: nat, cap: nat) -> nat
    decreases zip_len(bytes) - from,
{
    if from >= zip_len(bytes) {
        zip_len(bytes)
    } else if entry_yield(bytes, from, cap) is Skip {
        next_stop(bytes, from + 1, cap)
    } else {
        from
    }
}

/// A walk over the entries of an archive that stages one file at a time.
pub struct ArchiveIngestor {
    archive: zip::ZipArchive<std::io::Cursor<Vec<u8>>>,
    len: usize,
    next: usize,
    cap: usize,
}

impl ArchiveIngestor {
    /// The bytes of the archive.
    pub closed spec fn source(&self) -> Seq<u8> {
        archive_source(self.archive)
    }

    /// The index of the entry that the walk looks at next.
    pub closed spec fn position(&self) -> nat {
        self.next as nat
    }

    /// The bytes kept of each file at most.
    pub closed spec fn cap(&self) -> nat {
        self.cap as nat
    }

    /// The walk knows how many entries the archive has and stands at one of
    /// them or at the end.
    pub closed spec fn wf(&self) -> bool {
        self.len == zip_len(archive_source(self.archive)) && self.next <= self.len
    }

    /// Opens the archive held in `bytes`. The walk starts at its first entry.
    pub fn open(bytes: Vec<u8>, cap: usize) -> (r: Result<ArchiveIngestor, AppError>)
        ensures
            match r {
                Ok(walk) => zip_opens(bytes@) && walk.wf() && walk.source() == bytes@
                    && walk.position() == 0 && walk.cap() == cap,
                Err(e) => !zip_opens(bytes@) && e == AppError::Archive,
            },
    {
        match open_archive(bytes) {
            Ok(archive) => {
                let len = archive_len(&archive);
                Ok(ArchiveIngestor { archive, len, next: 0, cap })
            },
            Err(_) => Err(AppError::Archive),
        }
    }

    /// Stages the next file of the archive, passing over the entries that are
    /// skipped; `None` when no entry is left.
    ///
    /// After a failure the walk stays at the entry that failed.
    pub fn next_file(&mut self) -> (r: Result<Option<StagedFile>, AppError>)
        requires
            old(self).wf(),
        ensures
            final(self).wf(),
            final(self).source() == old(self).source(),
            final(self).cap() == old(self).cap(),
            old(self).position() <= final(self).position() <= zip_len(old(self).source()),
            ({
                let src = old(self).source();
                let cap = old(self).cap();
                let stop = next_stop(src, old(self).position(), cap);
                if stop >= zip_len(src) {
                    r == Ok::<Option<StagedFile>, AppError>(None) && final(self).position()
                        == zip_len(src)
                } else {
                    match entry_yield(src, stop, cap) {
                        EntryYield::File(f) => final(self).position() == stop + 1 && (r matches Ok(
                            Some(g),
                        ) && g@ == f),
                        _ => final(self).position() == stop && r == Err::<
                            Option<StagedFile>,
                            AppError,
                        >(AppError::Archive),
                    }
                }
            }),
    {
        let ghost src = self.source();
        let ghost cap = self.cap();
        let ghost start = self.position();
        while self.next < self.len
            invariant
                src == old(self).source(),
                cap == old(self).cap(),
                start == old(self).position(),
                self.len == zip_len(src),
                self.next <= self.len,
                self.cap == cap,
                archive_source(self.archive) == src,
                start <= self.next,
                next_stop(src, start, cap) == next_stop(src, self.next as nat, cap),
            decreases self.len - self.next,
        {
            let index = self.next;
            let head = match entry_head(&mut self.archive, index) {
                Ok(head) => head,
                Err(_) => {
                    return Err(AppError::Archive);
                },
            };
            if head.is_dir {
                self.next = index + 1;
                continue ;
            }
            let path = match head.path {
                Some(path) => path,
                None => {
                    self.next = index + 1;
                    continue ;
                },
            };
            let data = match entry_data(&mut self.archive, index, self.cap as u64) {
                Ok(data) => data,
                Err(_) => {
                    return Err(AppError::Archive);
                },
            };
            self.next = index + 1;
            return Ok(Some(stage_file(path, &data, self.cap)));
        }
        Ok(None)
    }
}

/// The files staged for the entries at `from` and behind it, in the order of
/// the archive; nothing where one of these entries fails.
pub open spec fn staged_from(bytes: Seq<u8>, from: nat, cap: nat) -> Option<Seq<StagedFileView>>
    decreases zip_len(bytes) - from,
{
    if from >= zip_len(bytes) {
        Some(Seq::empty())
    } else {
        match entry_yield(bytes, from, cap) {
            EntryYield::Fail => None,
            EntryYield::Skip => staged_from(bytes, from + 1, cap),
            EntryYield::File(f) => match staged_from(bytes, from + 1, cap) {
                Some(rest) => Some(seq![f] + rest),
                None => None,
            },
        }
    }
}

/// What staging a whole archive gives: its files, or a failure where the
/// archive cannot be opened or one of its entries fails.
pub open spec fn staged_archive(bytes: Seq<u8>, cap: nat) -> Option<Seq<StagedFileView>> {
    if zip_opens(bytes) {
        staged_from(bytes, 0, cap)
    } else {
        None
    }
}

/// The views of staged files.
pub open spec fn staged_views(files: Seq<StagedFile>) -> Seq<StagedFileView> {
    files.map_values(|f: StagedFile| f@)
}

/// Skipped entries add nothing: staging from `from` is staging from the next
/// stop.
pub proof fn lemma_staged_from_stop(bytes: Seq<u8>, from: nat, cap: nat)
    ensures
        staged_from(bytes, from, cap) == staged_from(bytes, next_stop(bytes, from, cap), cap),
        from <= zip_len(bytes) ==> from <= next_stop(bytes, from, cap) <= zip_len(bytes),
        next_stop(bytes, from, cap) < zip_len(bytes) ==> !(entry_yield(
            bytes,
            next_stop(bytes, from, cap),
            cap,
        ) is Skip),
    decreases zip_len(bytes) - from,
{
    if from < zip_len(bytes) && entry_yield(bytes, from, cap) is Skip {
        lemma_staged_from_stop(bytes, from + 1, cap);
    }
}

/// Stages every file of the archive held in `bytes`, each cut to `cap` bytes.
pub fn stage_archive(bytes: Vec<u8>, cap: usize) -> (r: Result<Vec<StagedFile>, AppError>)
    ensures
        match r {
            Ok(files) => staged_archive(bytes@, cap as nat) == Some(staged_views(files@)),
            Err(e) => staged_archive(bytes@, cap as nat) is None && e == AppError::Archive,
        },
{
    let mut walk = match ArchiveIngestor::open(bytes, cap) {
        Ok(walk) => walk,
        Err(e) => {
            return Err(e);
        },
    };
    let mut files: Vec<StagedFile> = Vec::new();
    let ghost src = walk.source();
    proof {
        assert(staged_views(files@) =~= Seq::<StagedFileView>::empty());
    }
    loop
        invariant
            walk.wf(),
            walk.source() == src,
            walk.cap() == cap,
            src == bytes@,
            zip_opens(src),
            walk.position() <= zip_len(src),
            match staged_from(src, walk.position(), cap as nat) {
                Some(rest) => staged_from(src, 0, cap as nat) == Some(staged_views(files@) + rest),
                None => staged_from(src, 0, cap as nat) is None,
            },
        decreases zip_len(src) - walk.position(),
    {
        let ghost before = walk.position();
        let ghost had = staged_views(files@);
        proof {
            lemma_staged_from_stop(src, before, cap as nat);
        }
        match walk.next_file() {
            Ok(Some(file)) => {
                files.push(file);
                proof {
                    let stop = next_stop(src, before, cap as nat);
                    assert(staged_views(files@) =~= had.push(file@));
                    match staged_from(src, stop + 1, cap as nat) {
                        Some(rest) => {
                            assert(had + (seq![file@] + rest) =~= had.push(file@) + rest);
                        },
                        None => {},
                    }
                }
            },
            Ok(None) => {
                proof {
                    assert(staged_views(files@) + Seq::<StagedFileView>::empty() =~= staged_views(
                        files@,
                    ));
                }
                return Ok(files);
            },
            Err(e) => {
                return Err(e);
            },
        }
    }
}

/// Where an ingest stands in its transaction.
#[derive(Debug, PartialEq, Eq, Structural, Clone, Copy)]
pub enum IngestPhase {
    /// Nothing was asked of storage yet.
    Idle,
    /// The transaction is being opened.
    Beginning,
    /// The application row is being inserted.
    InsertingApplication,
    /// A file row of the application `app_id` is being inserted.
    InsertingFile { app_id: i64 },
    /// Every row was inserted and the transaction is being committed.
    Committing { app_id: i64 },
    /// The ingest has ended, in a commit or in an abort.
    Closed,
}

/// How the statement that an ingest asked for has ended.
#[derive(Debug, PartialEq, Eq, Structural, Clone, Copy)]
pub enum IngestEvent {
    /// The caller is ready to run statements.
    Start,
    /// The statement succeeded.
    Done,
    /// The application row was inserted and storage gave it this identifier.
    ApplicationInserted(i64),
    /// The statement failed.
    Failed,
}

/// What the caller does next for an ingest.
#[derive(Debug)]
pub enum IngestAction {
    /// Open a transaction.
    Begin,
    /// Insert the application row with this name.
    InsertApplication(String),
    /// Insert a file row that belongs to the application `app_id`.
    InsertFile { app_id: i64, file: StagedFile },
    /// Commit the transaction.
    Commit,
    /// Give the transaction up without committing, and report the error.
    Abort(AppError),
    /// Report the identifier of the application that was stored.
    Finished(i64),
}

/// `IngestAction` as contracts see it: the same fields, with each string as the
/// sequence of its characters.
pub enum IngestActionView {
    Begin,
    InsertApplication(Seq<char>),
    InsertFile { app_id: i64, file: StagedFileView },
    Commit,
    Abort(AppError),
    Finished(i64),
}

impl View for IngestAction {
    type V = IngestActionView;

    open spec fn view(&self) -> IngestActionView {
        match *self {
            IngestAction::Begin => IngestActionView::Begin,
            IngestAction::InsertApplication(name) => IngestActionView::InsertApplication(name@),
            IngestAction::InsertFile { app_id, file } => IngestActionView::InsertFile {
                app_id,
                file: file@,
            },
            IngestAction::Commit => IngestActionView::Commit,
            IngestAction::Abort(e) => IngestActionView::Abort(e),
            IngestAction::Finished(id) => IngestActionView::Finished(id),
        }
    }
}

/// An ingest as its contracts see it: its phase and the entry of the archive
/// that it looks at next.
pub struct IngestModel {
    pub phase: IngestPhase,
    pub position: nat,
}

/// What an ingest does once a row of application `app_id` is stored: it
/// inserts the next file, commits where no entry is left, and aborts where an
/// entry of the archive fails.
pub open spec fn pull(bytes: Seq<u8>, cap: nat, app_id: i64, position: nat) -> (
    IngestModel,
    IngestActionView,
) {
    let stop = next_stop(bytes, position, cap);
    if stop >= zip_len(bytes) {
        (
            IngestModel { phase: IngestPhase::Committing { app_id }, position: zip_len(bytes) },
            IngestActionView::Commit,
        )
    } else {
        match entry_yield(bytes, stop, cap) {
            EntryYield::File(file) => (
                IngestModel { phase: IngestPhase::InsertingFile { app_id }, position: stop + 1 },
                IngestActionView::InsertFile { app_id, file },
            ),
            _ => (
                IngestModel { phase: IngestPhase::Closed, position: stop },
                IngestActionView::Abort(AppError::Archive),
            ),
        }
    }
}

/// The next phase and action of an ingest of the archive `bytes` under the
/// application name `name`.
///
/// A failed statement, and an event that does not answer what was asked,
/// abort the ingest; nothing is committed then.
pub open spec fn ingest_step(
    bytes: Seq<u8>,
    cap: nat,
    name: Seq<char>,
    model: IngestModel,
    event: IngestEvent,
) -> (IngestModel, IngestActionView) {
    match (model.phase, event) {
        (IngestPhase::Idle, IngestEvent::Start) => (
            IngestModel { phase: IngestPhase::Beginning, position: model.position },
            IngestActionView::Begin,
        ),
        (IngestPhase::Beginning, IngestEvent::Done) => (
            IngestModel { phase: IngestPhase::InsertingApplication, position: model.position },
            IngestActionView::InsertApplication(name),
        ),
        (IngestPhase::InsertingApplication, IngestEvent::ApplicationInserted(app_id)) => pull(
            bytes,
            cap,
            app_id,
            model.position,
        ),
        (IngestPhase::InsertingFile { app_id }, IngestEvent::Done) => pull(
            bytes,
            cap,
            app_id,
            model.position,
        ),
        (IngestPhase::Committing { app_id }, IngestEvent::Done) => (
            IngestModel { phase: IngestPhase::Closed, position: model.position },
            IngestActionView::Finished(app_id),
        ),
        _ => (
            IngestModel { phase: IngestPhase::Closed, position: model.position },
            IngestActionView::Abort(AppError::Storage),
        ),
    }
}

/// The ingest of one archive: the walk over its entries and the phase of the
/// transaction that stores them.
pub struct Ingest {
    name: String,
    walk: ArchiveIngestor,
    phase: IngestPhase,
}

impl Ingest {
    /// The walk of the ingest is well formed.
    pub closed spec fn wf(&self) -> bool {
        self.walk.wf()
    }

    /// The bytes of the archive.
    pub closed spec fn source(&self) -> Seq<u8> {
        self.walk.source()
    }

    /// The bytes kept of each file at most.
    pub closed spec fn cap(&self) -> nat {
        self.walk.cap()
    }

    /// The name of the application.
    pub closed spec fn name(&self) -> Seq<char> {
        self.name@
    }

    /// The phase of the ingest and where it stands in the archive.
    pub closed spec fn model(&self) -> IngestModel {
        IngestModel { phase: self.phase, position: self.walk.position() }
    }

    /// Opens the archive and readies an ingest under `app_name`. Nothing is
    /// asked of storage where the archive cannot be opened.
    pub fn new(app_name: &str, bytes: Vec<u8>, cap: usize) -> (r: Result<Ingest, AppError>)
        ensures
            match r {
                Ok(ingest) => zip_opens(bytes@) && ingest.wf() && ingest.source() == bytes@
                    && ingest.cap() == cap && ingest.name() == app_name@ && ingest.model()
                    == (IngestModel { phase: IngestPhase::Idle, position: 0 }),
                Err(e) => !zip_opens(bytes@) && e == AppError::Archive,
            },
    {
        match ArchiveIngestor::open(bytes, cap) {
            Ok(walk) => Ok(Ingest { name: app_name.to_owned(), walk, phase: IngestPhase::Idle }),
            Err(e) => Err(e),
        }
    }

    /// Takes how the last statement ended and says what to do next.
    pub fn step(&mut self, event: IngestEvent) -> (action: IngestAction)
        requires
            old(self).wf(),
        ensures
            final(self).wf(),
            final(self).source() == old(self).source(),
            final(self).cap() == old(self).cap(),
            final(self).name() == old(self).name(),
            (final(self).model(), action@) == ingest_step(
                old(self).source(),
                old(self).cap(),
                old(self).name(),
                old(self).model(),
                event,
            ),
    {
        let app_id: i64 = match (self.phase, event) {
            (IngestPhase::Idle, IngestEvent::Start) => {
                self.phase = IngestPhase::Beginning;
                return IngestAction::Begin;
            },
            (IngestPhase::Beginning, IngestEvent::Done) => {
                self.phase = IngestPhase::InsertingApplication;
                return IngestAction::InsertApplication(self.name.clone());
            },
            (IngestPhase::InsertingApplication, IngestEvent::ApplicationInserted(app_id)) => app_id,
            (IngestPhase::InsertingFile { app_id }, IngestEvent::Done) => app_id,
            (IngestPhase::Committing { app_id }, IngestEvent::Done) => {
                self.phase = IngestPhase::Closed;
                return IngestAction::Finished(app_id);
            },
            _ => {
                self.phase = IngestPhase::Closed;
                return IngestAction::Abort(AppError::Storage);
            },
        };
        match self.walk.next_file() {
            Ok(Some(file)) => {
                self.phase = IngestPhase::InsertingFile { app_id };
                IngestAction::InsertFile { app_id, file }
            },
            Ok(None) => {
                self.phase = IngestPhase::Committing { app_id };
                IngestAction::Commit
            },
            Err(e) => {
                self.phase = IngestPhase::Closed;
                IngestAction::Abort(e)
            },
        }
    }
}

/// Readies the ingest of an uploaded archive under `app_name`, keeping at most
/// `MAX_FILE_BYTES` of each file.
pub fn extract_and_store(app_name: &str, bytes: Vec<u8>) -> (r: Result<Ingest, AppError>)
    ensures
        match r {
            Ok(ingest) => zip_opens(bytes@) && ingest.wf() && ingest.source() == bytes@
                && ingest.cap() == MAX_FILE_BYTES && ingest.name() == app_name@ && ingest.model()
                == (IngestModel { phase: IngestPhase::Idle, position: 0 }),
            Err(e) => !zip_opens(bytes@) && e == AppError::Archive,
        },
{
    Ingest::new(app_name, bytes, MAX_FILE_BYTES)
}

/// An ingest before its first event.
pub open spec fn initial_model() -> IngestModel {
    IngestModel { phase: IngestPhase::Idle, position: 0 }
}

/// The model of an ingest after the first `n` of `events`.
pub open spec fn model_after(
    bytes: Seq<u8>,
    cap: nat,
    name: Seq<char>,
    events: Seq<IngestEvent>,
    n: nat,
) -> IngestModel
    decreases n,
{
    if n == 0 {
        initial_model()
    } else {
        ingest_step(
            bytes,
            cap,
            name,
            model_after(bytes, cap, name, events, (n - 1) as nat),
            events[n - 1],
        ).0
    }
}

/// The action with which an ingest answers the event at index `n`.
pub open spec fn action_at(
    bytes: Seq<u8>,
    cap: nat,
    name: Seq<char>,
    events: Seq<IngestEvent>,
    n: nat,
) -> IngestActionView {
    ingest_step(bytes, cap, name, model_after(bytes, cap, name, events, n), events[n as int]).1
}

/// Whether a phase lies before the commit.
pub open spec fn before_commit(phase: IngestPhase) -> bool {
    !(phase is Committing) && !(phase is Closed)
}

/// The number of entries from `from` on that are no directories.
pub open spec fn regular_entries(bytes: Seq<u8>, from: nat) -> nat
    decreases zip_len(bytes) - from,
{
    if from >= zip_len(bytes) {
        0
    } else {
        let here: nat = match zip_head(bytes, from) {
            Some((is_dir, _)) => if is_dir {
                0
            } else {
                1
            },
            None => 0,
        };
        here + regular_entries(bytes, from + 1)
    }
}

/// Where staging succeeds, the first staged file belongs to the next stop and
/// the files behind it are staged from the entry after that stop.
pub proof fn lemma_staged_head(bytes: Seq<u8>, from: nat, cap: nat, files: Seq<StagedFileView>)
    requires
        from <= zip_len(bytes),
        staged_from(bytes, from, cap) == Some(files),
    ensures
        files.len() == 0 ==> next_stop(bytes, from, cap) >= zip_len(bytes),
        files.len() > 0 ==> ({
            let stop = next_stop(bytes, from, cap);
            &&& stop < zip_len(bytes)
            &&& entry_yield(bytes, stop, cap) == EntryYield::File(files[0])
            &&& staged_from(bytes, stop + 1, cap) == Some(files.skip(1))
        }),
{
    lemma_staged_from_stop(bytes, from, cap);
    let stop = next_stop(bytes, from, cap);
    if stop < zip_len(bytes) {
        match entry_yield(bytes, stop, cap) {
            EntryYield::File(f) => {
                let rest = staged_from(bytes, stop + 1, cap)->0;
                assert(files == seq![f] + rest);
                assert(files.skip(1) =~= rest);
            },
            _ => {},
        }
    }
}

/// While an ingest stands before its commit, it has committed nothing.
pub proof fn lemma_uncommitted_before_commit(
    bytes: Seq<u8>,
    cap: nat,
    name: Seq<char>,
    events: Seq<IngestEvent>,
    n: nat,
)
    requires
        n <= events.len(),
        before_commit(model_after(bytes, cap, name, events, n).phase),
    ensures
        forall|j: nat|
            j < n ==> !(#[trigger] action_at(bytes, cap, name, events, j) is Commit) && !(action_at(
                bytes,
                cap,
                name,
                events,
                j,
            ) is Finished),
    decreases n,
{
    if n > 0 {
        let prev = model_after(bytes, cap, name, events, (n - 1) as nat);
        assert(before_commit(prev.phase));
        lemma_uncommitted_before_commit(bytes, cap, name, events, (n - 1) as nat);
        assert(!(action_at(bytes, cap, name, events, (n - 1) as nat) is Commit));
    }
}

/// Once an ingest is closed it stays closed and only repeats that it was given
/// up.
pub proof fn lemma_closed_stays_closed(
    bytes: Seq<u8>,
    cap: nat,
    name: Seq<char>,
    events: Seq<IngestEvent>,
    n: nat,
    m: nat,
)
    requires
        n <= m <= events.len(),
        model_after(bytes, cap, name, events, n).phase is Closed,
    ensures
        model_after(bytes, cap, name, events, m).phase is Closed,
        forall|j: nat| n <= j < m ==> #[trigger] action_at(bytes, cap, name, events, j) is Abort,
    decreases m - n,
{
    if n < m {
        lemma_closed_stays_closed(bytes, cap, name, events, n, (m - 1) as nat);
    }
}

/// Ingestion is atomic. When a statement fails before the commit, be it the
/// opening of the transaction, the insert of the application or the insert of
/// any file, every action before the failure left the transaction open, and
/// every action from the failure on gives the transaction up: no row of the
/// request is ever committed.
pub proof fn lemma_failure_commits_nothing(
    bytes: Seq<u8>,
    cap: nat,
    name: Seq<char>,
    events: Seq<IngestEvent>,
    n: nat,
)
    requires
        n < events.len(),
        events[n as int] == IngestEvent::Failed,
        before_commit(model_after(bytes, cap, name, events, n).phase),
    ensures
        forall|j: nat|
            j < n ==> !(#[trigger] action_at(bytes, cap, name, events, j) is Commit),
        forall|j: nat|
            n <= j < events.len() ==> #[trigger] action_at(bytes, cap, name, events, j) is Abort,
{
    lemma_uncommitted_before_commit(bytes, cap, name, events, n);
    assert(model_after(bytes, cap, name, events, n + 1).phase is Closed);
    lemma_closed_stays_closed(bytes, cap, name, events, n + 1, events.len());
    assert(action_at(bytes, cap, name, events, n) is Abort);
}

/// An ingest whose first two statements succeed opens the transaction and
/// then inserts the application, without moving in the archive.
proof fn lemma_ingest_opening(bytes: Seq<u8>, cap: nat, name: Seq<char>, events: Seq<IngestEvent>)
    requires
        events.len() >= 2,
        events[0] == IngestEvent::Start,
        events[1] == IngestEvent::Done,
    ensures
        action_at(bytes, cap, name, events, 0) == IngestActionView::Begin,
        action_at(bytes, cap, name, events, 1) == IngestActionView::InsertApplication(name),
        model_after(bytes, cap, name, events, 2) == (IngestModel {
            phase: IngestPhase::InsertingApplication,
            position: 0,
        }),
{
    let m0 = model_after(bytes, cap, name, events, 0);
    assert(m0 == initial_model());
    let m1 = model_after(bytes, cap, name, events, 1);
    assert(m1 == ingest_step(bytes, cap, name, m0, events[0]).0);
    assert(m1 == (IngestModel { phase: IngestPhase::Beginning, position: 0 }));
    let m2 = model_after(bytes, cap, name, events, 2);
    assert(m2 == ingest_step(bytes, cap, name, m1, events[1]).0);
}

/// After the application row and `i` file rows were stored, the ingest stands
/// where the files that are left start.
proof fn lemma_ingest_progress(
    bytes: Seq<u8>,
    cap: nat,
    name: Seq<char>,
    files: Seq<StagedFileView>,
    app_id: i64,
    events: Seq<IngestEvent>,
    i: nat,
)
    requires
        staged_from(bytes, 0, cap) == Some(files),
        events.len() == files.len() + 4,
        events[0] == IngestEvent::Start,
        events[1] == IngestEvent::Done,
        events[2] == IngestEvent::ApplicationInserted(app_id),
        forall|j: int| 3 <= j < events.len() ==> events[j] == IngestEvent::Done,
        i <= files.len(),
    ensures
        ({
            let m = model_after(bytes, cap, name, events, 2 + i);
            &&& m.position <= zip_len(bytes)
            &&& staged_from(bytes, m.position, cap) == Some(files.skip(i as int))
            &&& m.phase == if i == 0 {
                IngestPhase::InsertingApplication
            } else {
                IngestPhase::InsertingFile { app_id }
            }
        }),
        forall|k: nat|
            k < i ==> #[trigger] action_at(bytes, cap, name, events, 2 + k)
                == (IngestActionView::InsertFile { app_id, file: files[k as int] }),
    decreases i,
{
    if i == 0 {
        lemma_ingest_opening(bytes, cap, name, events);
        assert(files.skip(0) =~= files);
    } else {
        let h = (i - 1) as nat;
        lemma_ingest_progress(bytes, cap, name, files, app_id, events, h);
        let m = model_after(bytes, cap, name, events, 2 + h);
        lemma_staged_head(bytes, m.position, cap, files.skip(h as int));
        assert(files.skip(h as int).skip(1) =~= files.skip(i as int));
        assert(files.skip(h as int)[0] == files[h as int]);
        assert(events[2 + h as int] == if h == 0 {
            IngestEvent::ApplicationInserted(app_id)
        } else {
            IngestEvent::Done
        });
        assert(action_at(bytes, cap, name, events, 2 + h) == (IngestActionView::InsertFile {
            app_id,
            file: files[h as int],
        }));
    }
}

/// An ingest in which every statement succeeds stores the application once and
/// every staged file once, in the order of the archive, and then commits: it
/// opens the transaction, inserts the application row, inserts one row for
/// each file under the identifier that storage gave the application, commits,
/// and reports that identifier.
pub proof fn lemma_ingest_stores_each_file_once(
    bytes: Seq<u8>,
    cap: nat,
    name: Seq<char>,
    files: Seq<StagedFileView>,
    app_id: i64,
    events: Seq<IngestEvent>,
)
    requires
        staged_from(bytes, 0, cap) == Some(files),
        events.len() == files.len() + 4,
        events[0] == IngestEvent::Start,
        events[1] == IngestEvent::Done,
        events[2] == IngestEvent::ApplicationInserted(app_id),
        forall|j: int| 3 <= j < events.len() ==> events[j] == IngestEvent::Done,
    ensures
        action_at(bytes, cap, name, events, 0) == IngestActionView::Begin,
        action_at(bytes, cap, name, events, 1) == IngestActionView::InsertApplication(name),
        forall|k: nat|
            k < files.len() ==> #[trigger] action_at(bytes, cap, name, events, 2 + k)
                == (IngestActionView::InsertFile { app_id, file: files[k as int] }),
        action_at(bytes, cap, name, events, 2 + files.len()) == IngestActionView::Commit,
        action_at(bytes, cap, name, events, 3 + files.len()) == IngestActionView::Finished(app_id),
{
    let total = files.len();
    lemma_ingest_progress(bytes, cap, name, files, app_id, events, total);
    lemma_ingest_opening(bytes, cap, name, events);
    let m = model_after(bytes, cap, name, events, 2 + total);
    lemma_staged_head(bytes, m.position, cap, files.skip(total as int));
    assert(events[2 + total as int] == if total == 0 {
        IngestEvent::ApplicationInserted(app_id)
    } else {
        IngestEvent::Done
    });
    assert(action_at(bytes, cap, name, events, 2 + total) == IngestActionView::Commit);
    assert(model_after(bytes, cap, name, events, 3 + total).phase == (IngestPhase::Committing {
        app_id,
    }));
}

/// Directories are never staged. Where every entry that is no directory has a
/// safe path, the staged files are as many as those entries.
pub proof fn lemma_one_file_per_regular_entry(
    bytes: Seq<u8>,
    from: nat,
    cap: nat,
    files: Seq<StagedFileView>,
)
    requires
        staged_from(bytes, from, cap) == Some(files),
        forall|i: nat|
            from <= i < zip_len(bytes) ==> (#[trigger] zip_head(bytes, i) matches Some(
                (is_dir, path),
            ) ==> is_dir || path is Some),
    ensures
        files.len() == regular_entries(bytes, from),
    decreases zip_len(bytes) - from,
{
    if from < zip_len(bytes) {
        match entry_yield(bytes, from, cap) {
            EntryYield::Fail => {},
            EntryYield::Skip => {
                assert(zip_head(bytes, from) is Some);
                lemma_one_file_per_regular_entry(bytes, from + 1, cap, files);
            },
            EntryYield::File(f) => {
                let rest = staged_from(bytes, from + 1, cap)->0;
                lemma_one_file_per_regular_entry(bytes, from + 1, cap, rest);
            },
        }
    }
}

} // verus!
