//! Reader for JVM class files: the byte-exact parser of the class-file
//! format and the constant pool with its resolution of symbolic references.
//!
//! - [`buffer`] reads big-endian numbers, bytes and text from a run of
//!   bytes.
//! - [`constant_pool`] holds the constants of a class, addressed from one,
//!   and resolves them to text.
//! - [`class_format`] states the class-file format as functions on bytes,
//!   and [`class_reader`] reads a class file as the format says.
//! - [`truncation`] shows what happens to a class file that is cut short.
//! - [`handle`] resolves method handles against the constant pool.
//! - [`class_file`], [`class_file_version`] and [`flags`] are the data that
//!   a class file holds; [`class_reader_error`] are the errors of reading
//!   one; [`class_path`] is the boundary to where its bytes come from.
//! - [`text`] renders integers, and takes the rendering of floating-point
//!   constants from the caller.

pub mod buffer;
pub mod class_file;
pub mod class_file_version;
pub mod class_format;
pub mod class_path;
pub mod class_reader;
pub mod class_reader_error;
pub mod constant_pool;
pub mod flags;
pub mod handle;
pub mod text;
pub mod truncation;
