//! Zip archives, read with the `zip` crate.
//!
//! An archive is opened over bytes held in memory. Contracts speak of what it
//! holds as a function of those bytes: how many entries there are, what the
//! head of each says, and what reading each yields.

use vstd::prelude::*;

verus! {

/// `zip::ZipArchive`, an archive with the reader it was opened over. It is only
/// carried; nothing inside it is read here.
#[verifier::external_type_specification]
#[verifier::external_body]
#[verifier::reject_recursive_types(R)]
pub struct ExZipArchive<R>(zip::ZipArchive<R>);

/// `std::io::Cursor`, the reader over bytes in memory. It is only carried.
#[verifier::external_type_specification]
#[verifier::external_body]
#[verifier::reject_recursive_types(T)]
pub struct ExCursor<T>(std::io::Cursor<T>);

/// `zip::result::ZipError`, why an archive or an entry could not be opened or
/// read. It is only told apart from success.
#[verifier::external_type_specification]
#[verifier::external_body]
pub struct ExZipError(zip::result::ZipError);

/// What the head of an entry says: whether it is a directory, and the path
/// under which it may be stored, if its name gives a safe one.
#[derive(Debug)]
pub struct EntryHead {
    pub is_dir: bool,
    pub path: Option<String>,
}

/// The bytes that an archive was opened over.
pub uninterp spec fn archive_source(archive: zip::ZipArchive<std::io::Cursor<Vec<u8>>>) -> Seq<u8>;

/// Whether `ZipArchive::new` finds and reads a central directory in `bytes`.
pub uninterp spec fn zip_opens(bytes: Seq<u8>) -> bool;

/// The number of entries that `ZipArchive::len` counts in the archive held in
/// `bytes`.
pub uninterp spec fn zip_len(bytes: Seq<u8>) -> nat;

/// For the entry at `index` of the archive held in `bytes`: whether
/// `ZipFile::is_dir` calls it a directory, and the path that
/// `ZipFile::enclosed_name` gives for it; nothing where
/// `ZipArchive::by_index` fails.
pub uninterp spec fn zip_head(bytes: Seq<u8>, index: nat) -> Option<(bool, Option<Seq<char>>)>;

/// What reading the entry at `index` of the archive held in `bytes` yields
/// when at most `cap` bytes are taken; nothing where the entry cannot be
/// opened or read.
pub uninterp spec fn zip_data(bytes: Seq<u8>, index: nat, cap: nat) -> Option<Seq<u8>>;

/// Calls `ZipArchive::new` on a cursor over `bytes`. It succeeds exactly when
/// `zip_opens` holds, and the archive it gives reads from these bytes.
#[verifier::external_body]
pub(crate) fn open_archive(bytes: Vec<u8>) -> (r: Result<
    zip::ZipArchive<std::io::Cursor<Vec<u8>>>,
    zip::result::ZipError,
>)
    ensures
        match r {
            Ok(archive) => zip_opens(bytes@) && archive_source(archive) == bytes@,
            Err(_) => !zip_opens(bytes@),
        },
{
    zip::ZipArchive::new(std::io::Cursor::new(bytes))
}

/// Calls `ZipArchive::len`.
#[verifier::external_body]
pub(crate) fn archive_len(archive: &zip::ZipArchive<std::io::Cursor<Vec<u8>>>) -> (n: usize)
    ensures
        n == zip_len(archive_source(*archive)),
{
    archive.len()
}

/// Calls `ZipArchive::by_index`, and on the entry `ZipFile::is_dir` and
/// `ZipFile::enclosed_name`, whose path is copied into a string. The bytes
/// under the archive stay as they were.
#[verifier::external_body]
pub(crate) fn entry_head(
    archive: &mut zip::ZipArchive<std::io::Cursor<Vec<u8>>>,
    index: usize,
) -> (r: Result<EntryHead, zip::result::ZipError>)
    ensures
        archive_source(*final(archive)) == archive_source(*old(archive)),
        match r {
            Ok(head) => zip_head(archive_source(*old(archive)), index as nat) == Some(
                (head.is_dir, crate::models::opt_view(head.path)),
            ),
            Err(_) => zip_head(archive_source(*old(archive)), index as nat) is None,
        },
{
    let entry = archive.by_index(index)?;
    let path = entry.enclosed_name().map(|p| p.to_string_lossy().into_owned());
    Ok(EntryHead { is_dir: entry.is_dir(), path })
}

/// Calls `ZipArchive::by_index` and reads the entry to its end through
/// `Read::take`, which hands out at most `cap` bytes. The bytes under the
/// archive stay as they were.
#[verifier::external_body]
pub(crate) fn entry_data(
    archive: &mut zip::ZipArchive<std::io::Cursor<Vec<u8>>>,
    index: usize,
    cap: u64,
) -> (r: Result<Vec<u8>, zip::result::ZipError>)
    ensures
        archive_source(*final(archive)) == archive_source(*old(archive)),
        match r {
            Ok(data) => zip_data(archive_source(*old(archive)), index as nat, cap as nat) == Some(
                data@,
            ) && data@.len() <= cap,
            Err(_) => zip_data(archive_source(*old(archive)), index as nat, cap as nat) is None,
        },
{
    let entry = archive.by_index(index)?;
    let mut data = Vec::new();
    std::io::Read::read_to_end(&mut std::io::Read::take(entry, cap), &mut data)?;
    Ok(data)
}

} // verus!
