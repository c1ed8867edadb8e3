//! Deciding what each entry of a directory walk becomes in the zip archive
//! the packer writes.
use vstd::prelude::*;

verus! {

/// Unix permissions given to every archive entry (`rwxr-xr-x`).
pub const ENTRY_PERMISSIONS: u32 = 0o755;

/// What an entry of the walk becomes in the archive.
#[derive(Clone, Debug)]
pub enum ArchiveEntry {
    /// A file stored under this name, with its contents.
    File(String),
    /// A directory entry under this name.
    Directory(String),
    /// Nothing: the source directory itself.
    Skip,
}

/// Why an entry of the walk could not be placed in the archive.
#[derive(Clone, Copy, Debug, PartialEq, Eq, Structural)]
pub enum ArchiveError {
    /// The entry's path does not lie under the source directory.
    OutsideSource,
}

/// `Path::strip_prefix` on the target's paths: the part of `path` after the
/// components of `base`, none when `base` is not a component-wise prefix of
/// `path`. Components are split at `/`, and on Windows at `\` too.
pub uninterp spec fn stripped_path(path: Seq<char>, base: Seq<char>) -> Option<Seq<char>>;

/// `std::path::Path::strip_prefix`, with both paths and the result as
/// strings. Its result is named by `stripped_path`.
#[verifier::external_body]
fn strip_prefix(path: &str, base: &str) -> (res: Option<String>)
    ensures
        res is None <==> stripped_path(path@, base@) is None,
        res matches Some(r) ==> stripped_path(path@, base@) == Some(r@),
{
    match std::path::Path::new(path).strip_prefix(base) {
        Ok(rest) => Some(rest.to_string_lossy().into_owned()),
        Err(_) => None,
    }
}

/// What an entry becomes, given its path relative to the walked directory
/// (none when it does not lie under it).
pub open spec fn entry_fits(relative: Option<Seq<char>>, is_file: bool, res: Result<ArchiveEntry, ArchiveError>) -> bool {
    match relative {
        None => res == Err::<ArchiveEntry, ArchiveError>(ArchiveError::OutsideSource),
        Some(name) => if is_file {
            res matches Ok(ArchiveEntry::File(n)) && n@ == name
        } else if name.len() > 0 {
            res matches Ok(ArchiveEntry::Directory(n)) && n@ == name
        } else {
            res matches Ok(ArchiveEntry::Skip)
        },
    }
}

/// The archive entry for a walk entry whose path relative to the walked
/// directory is `relative`: files keep their relative name, directories
/// too unless the name is empty (the walked directory itself).
pub fn entry_for(relative: Option<String>, is_file: bool) -> (res: Result<ArchiveEntry, ArchiveError>)
    ensures
        entry_fits(
            match relative {
                Some(r) => Some(r@),
                None => None,
            },
            is_file,
            res,
        ),
{
    match relative {
        None => Err(ArchiveError::OutsideSource),
        Some(name) => {
            if is_file {
                Ok(ArchiveEntry::File(name))
            } else if name.unicode_len() > 0 {
                Ok(ArchiveEntry::Directory(name))
            } else {
                Ok(ArchiveEntry::Skip)
            }
        },
    }
}

/// What the entry at `path` of a walk of `source` becomes in the archive:
/// a file under its path relative to `source`, a directory likewise, or
/// nothing for `source` itself.
pub fn archive_entry(path: &str, source: &str, is_file: bool) -> (res: Result<ArchiveEntry, ArchiveError>)
    ensures
        entry_fits(stripped_path(path@, source@), is_file, res),
{
    entry_for(strip_prefix(path, source), is_file)
}

/// Each walk entry under the walked directory is stored under its path
/// relative to that directory, unchanged: a file as a file of that name, a
/// directory as a directory of that name, and the walked directory itself
/// (the empty relative path) not at all; an entry outside it is refused.
pub proof fn entries_keep_their_relative_names(
    relative: Option<Seq<char>>,
    is_file: bool,
    res: Result<ArchiveEntry, ArchiveError>,
)
    requires
        entry_fits(relative, is_file, res),
    ensures
        relative is None ==> res == Err::<ArchiveEntry, ArchiveError>(ArchiveError::OutsideSource),
        relative matches Some(name) ==> (is_file ==> (res matches Ok(ArchiveEntry::File(n)) && n@ == name)),
        relative matches Some(name) ==> (!is_file && name.len() > 0 ==> (res matches Ok(
            ArchiveEntry::Directory(n),
        ) && n@ == name)),
        relative matches Some(name) ==> (!is_file && name.len() == 0 ==> res matches Ok(ArchiveEntry::Skip)),
{
}

} // verus!
