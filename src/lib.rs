//! A line-addressable text buffer with a logical (line, column) cursor.
pub mod text;
pub mod rope;
pub mod cursor;
pub mod edit;
pub mod buffer;
pub mod file;
pub mod keys;

pub use buffer::Buffer;
pub use cursor::{Cursor, Position};
pub use keys::{EditKey, handle_key};
pub use file::{FileError, IoFailure, filename_or_unknown, get_filename, read_failure, write_failure};
