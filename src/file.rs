//! What file operations decide, apart from the I/O itself: the error a failed
//! read or write reports, and the name a path is shown under.
use vstd::prelude::*;
use std::path::PathBuf;

verus! {

#[verifier::external_type_specification]
#[verifier::external_body]
pub struct ExIoError(std::io::Error);

/// Error types for file operations
#[derive(Debug)]
pub enum FileError {
    /// File not found
    NotFound(PathBuf),
    /// Permission denied
    PermissionDenied(PathBuf),
    /// Any other I/O error
    IoError(std::io::Error),
    /// File is not valid UTF-8
    InvalidUtf8(PathBuf),
}

impl From<std::io::Error> for FileError {
    fn from(err: std::io::Error) -> (r: Self)
        ensures
            r == FileError::IoError(err),
    {
        FileError::IoError(err)
    }
}

impl vstd::std_specs::convert::FromSpecImpl<std::io::Error> for FileError {
    open spec fn obeys_from_spec() -> bool {
        true
    }

    open spec fn from_spec(v: std::io::Error) -> FileError {
        FileError::IoError(v)
    }
}

/// The kinds of I/O failure that file operations report apart.
#[derive(Debug, Clone, Copy, PartialEq, Eq, Structural)]
pub enum IoFailure {
    NotFound,
    PermissionDenied,
    Other,
}

/// The error reported when reading `path` failed with `err`, of kind `kind`.
pub fn read_failure(path: PathBuf, kind: IoFailure, err: std::io::Error) -> (r: FileError)
    ensures
        kind == IoFailure::NotFound ==> r == FileError::NotFound(path),
        kind == IoFailure::PermissionDenied ==> r == FileError::PermissionDenied(path),
        kind == IoFailure::Other ==> r == FileError::IoError(err),
{
    match kind {
        IoFailure::NotFound => FileError::NotFound(path),
        IoFailure::PermissionDenied => FileError::PermissionDenied(path),
        IoFailure::Other => FileError::IoError(err),
    }
}

/// The error reported when writing `path` failed with `err`, of kind `kind`.
/// A missing file is no failure of its own here: writing creates it.
pub fn write_failure(path: PathBuf, kind: IoFailure, err: std::io::Error) -> (r: FileError)
    ensures
        kind == IoFailure::PermissionDenied ==> r == FileError::PermissionDenied(path),
        kind != IoFailure::PermissionDenied ==> r == FileError::IoError(err),
{
    match kind {
        IoFailure::PermissionDenied => FileError::PermissionDenied(path),
        _ => FileError::IoError(err),
    }
}

/// The final component of a path, as text; none where the path has no final
/// component or it is not valid Unicode.
pub uninterp spec fn file_name_of(p: PathBuf) -> Option<Seq<char>>;

/// Relies on `Path::file_name` (through `PathBuf`'s deref) and `OsStr::to_str`:
/// the final component of `path`, when it has one and it is valid Unicode.
#[verifier::external_body]
fn file_name_text(path: &PathBuf) -> (r: Option<String>)
    ensures
        r is Some <==> file_name_of(*path) is Some,
        r matches Some(s) ==> s@ == file_name_of(*path)->0,
{
    path.file_name().and_then(|name| name.to_str()).map(|name| name.to_string())
}

/// The name shown for a file: its name where known, otherwise "Unknown".
pub open spec fn shown_name(name: Option<Seq<char>>) -> Seq<char> {
    match name {
        Some(s) => s,
        None => "Unknown"@,
    }
}

/// The name shown for a file whose name is `name`, if known.
pub fn filename_or_unknown(name: Option<String>) -> (r: String)
    ensures
        r@ == shown_name(
            match name {
                Some(s) => Some(s@),
                None => None,
            },
        ),
{
    match name {
        Some(s) => s,
        None => String::from_str("Unknown"),
    }
}

/// Get the filename from a path (for display purposes)
pub fn get_filename(path: &PathBuf) -> (r: String)
    ensures
        r@ == shown_name(file_name_of(*path)),
{
    filename_or_unknown(file_name_text(path))
}

} // verus!
