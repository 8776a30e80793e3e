use std::path::PathBuf;
use stringr::{filename_or_unknown, get_filename, read_failure, write_failure, FileError, IoFailure};

fn io_err() -> std::io::Error {
    std::io::Error::new(std::io::ErrorKind::Other, "boom")
}

#[test]
fn filename_of_path() {
    assert_eq!(get_filename(&PathBuf::from("/home/user/notes.txt")), "notes.txt");
    assert_eq!(get_filename(&PathBuf::from("notes")), "notes");
}

#[test]
fn filename_unknown_without_final_component() {
    assert_eq!(get_filename(&PathBuf::from("/")), "Unknown");
    assert_eq!(get_filename(&PathBuf::from("dir/..")), "Unknown");
}

#[test]
fn filename_or_unknown_cases() {
    assert_eq!(filename_or_unknown(Some("a.rs".to_string())), "a.rs");
    assert_eq!(filename_or_unknown(None), "Unknown");
}

#[test]
fn read_failure_kinds() {
    let p = PathBuf::from("/x");
    assert!(matches!(read_failure(p.clone(), IoFailure::NotFound, io_err()), FileError::NotFound(q) if q == p));
    assert!(matches!(read_failure(p.clone(), IoFailure::PermissionDenied, io_err()), FileError::PermissionDenied(q) if q == p));
    assert!(matches!(read_failure(p, IoFailure::Other, io_err()), FileError::IoError(_)));
}

#[test]
fn write_failure_kinds() {
    let p = PathBuf::from("/x");
    assert!(matches!(write_failure(p.clone(), IoFailure::PermissionDenied, io_err()), FileError::PermissionDenied(q) if q == p));
    assert!(matches!(write_failure(p.clone(), IoFailure::NotFound, io_err()), FileError::IoError(_)));
    assert!(matches!(write_failure(p, IoFailure::Other, io_err()), FileError::IoError(_)));
}

#[test]
fn io_error_converts_to_file_error() {
    let e: FileError = FileError::from(io_err());
    assert!(matches!(e, FileError::IoError(_)));
}
