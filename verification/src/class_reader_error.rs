//! The errors of reading a class file.

use crate::buffer::BufferError;
use crate::constant_pool::{ConstantPoolFormattingError, InvalidConstantPoolIndexError};
use crate::text::{decimal_text, join2, join3, unsigned_to_text};
use vstd::prelude::*;

verus! {

/// Models the possible errors returned when reading a class file.
#[derive(Debug, PartialEq, Eq)]
pub enum ClassReaderError {
    /// The data ended before a value that had to be read.
    UnexpectedEndOfData,
    /// A piece of text is not valid modified UTF-8.
    InvalidTextEncoding,
    /// The class file breaks the structure of the format. Holds the details
    /// and, where a constant could not be rendered, the reason.
    InvalidClassData(String, Option<ConstantPoolFormattingError>),
    /// The class file names a constant that does not exist.
    InvalidClassDataIndex(String, Option<InvalidConstantPoolIndexError>),
    /// The version of the class file, major then minor, is not supported.
    UnsupportedVersion(u16, u16),
    /// A type descriptor in the file cannot be parsed.
    InvalidTypeDescriptor(String),
    /// The kind of a method handle is outside one to nine.
    InvalidMethodHandleKind(u8),
}

/// The mathematical value of an error: text is a sequence of characters.
pub enum ClassReaderErrorView {
    UnexpectedEndOfData,
    InvalidTextEncoding,
    InvalidClassData(Seq<char>, Option<ConstantPoolFormattingError>),
    InvalidClassDataIndex(Seq<char>, Option<InvalidConstantPoolIndexError>),
    UnsupportedVersion(u16, u16),
    InvalidTypeDescriptor(Seq<char>),
    InvalidMethodHandleKind(u8),
}

impl View for ClassReaderError {
    type V = ClassReaderErrorView;

    open spec fn view(&self) -> ClassReaderErrorView {
        match self {
            ClassReaderError::UnexpectedEndOfData => ClassReaderErrorView::UnexpectedEndOfData,
            ClassReaderError::InvalidTextEncoding => ClassReaderErrorView::InvalidTextEncoding,
            ClassReaderError::InvalidClassData(details, cause) =>
                ClassReaderErrorView::InvalidClassData(details@, *cause),
            ClassReaderError::InvalidClassDataIndex(details, cause) =>
                ClassReaderErrorView::InvalidClassDataIndex(details@, *cause),
            ClassReaderError::UnsupportedVersion(major, minor) =>
                ClassReaderErrorView::UnsupportedVersion(*major, *minor),
            ClassReaderError::InvalidTypeDescriptor(descriptor) =>
                ClassReaderErrorView::InvalidTypeDescriptor(descriptor@),
            ClassReaderError::InvalidMethodHandleKind(kind) =>
                ClassReaderErrorView::InvalidMethodHandleKind(*kind),
        }
    }
}

/// The error for a class file that breaks the structure of the format, with
/// nothing behind it.
pub open spec fn invalid_data(details: Seq<char>) -> ClassReaderErrorView {
    ClassReaderErrorView::InvalidClassData(details, None)
}

/// The error into which a constant that could not be rendered turns: it
/// carries the message of the reason, and the reason.
pub open spec fn formatting_failure(cause: ConstantPoolFormattingError) -> ClassReaderErrorView {
    ClassReaderErrorView::InvalidClassData(cause.text(), Some(cause))
}

/// The error into which an access to a missing constant turns.
pub open spec fn index_failure(cause: InvalidConstantPoolIndexError) -> ClassReaderErrorView {
    ClassReaderErrorView::InvalidClassDataIndex(cause.text(), Some(cause))
}

/// The error into which a failed read of the bytes turns.
pub open spec fn buffer_failure(cause: BufferError) -> ClassReaderErrorView {
    match cause {
        BufferError::UnexpectedEndOfData => ClassReaderErrorView::UnexpectedEndOfData,
        BufferError::InvalidCesu8String => ClassReaderErrorView::InvalidTextEncoding,
    }
}

impl ClassReaderErrorView {
    /// The message of the error.
    pub open spec fn text(self) -> Seq<char> {
        match self {
            ClassReaderErrorView::UnexpectedEndOfData =>
                "invalid class file: unexpected end of class file"@,
            ClassReaderErrorView::InvalidTextEncoding =>
                "invalid class file: invalid cesu8 string"@,
            ClassReaderErrorView::InvalidClassData(details, _) => "invalid class file: "@
                + details,
            ClassReaderErrorView::InvalidClassDataIndex(details, _) => "invalid class file: "@
                + details,
            ClassReaderErrorView::UnsupportedVersion(major, minor) =>
                "unsupported class file version "@ + decimal_text(major as int) + "."@
                    + decimal_text(minor as int),
            ClassReaderErrorView::InvalidTypeDescriptor(descriptor) => "invalid type descriptor: "@
                + descriptor,
            ClassReaderErrorView::InvalidMethodHandleKind(kind) => "invalid method handle kind: "@
                + decimal_text(kind as int),
        }
    }
}

impl ClassReaderError {
    /// The error for a class file that breaks the structure of the format.
    pub fn invalid_class_data(message: String) -> (error: Self)
        ensures
            error@ == invalid_data(message@),
    {
        ClassReaderError::InvalidClassData(message, None)
    }

    /// The message of the error.
    pub fn to_text(&self) -> (text: String)
        ensures
            text@ == self@.text(),
    {
        match self {
            ClassReaderError::UnexpectedEndOfData => String::from_str(
                "invalid class file: unexpected end of class file",
            ),
            ClassReaderError::InvalidTextEncoding => String::from_str(
                "invalid class file: invalid cesu8 string",
            ),
            ClassReaderError::InvalidClassData(details, _) => join2(
                "invalid class file: ",
                details.as_str(),
            ),
            ClassReaderError::InvalidClassDataIndex(details, _) => join2(
                "invalid class file: ",
                details.as_str(),
            ),
            ClassReaderError::UnsupportedVersion(major, minor) => {
                let major = unsigned_to_text(*major as u64);
                let minor = unsigned_to_text(*minor as u64);
                let mut text = join3("unsupported class file version ", major.as_str(), ".");
                text.append(minor.as_str());
                text
            },
            ClassReaderError::InvalidTypeDescriptor(descriptor) => join2(
                "invalid type descriptor: ",
                descriptor.as_str(),
            ),
            ClassReaderError::InvalidMethodHandleKind(kind) => {
                let kind = unsigned_to_text(*kind as u64);
                join2("invalid method handle kind: ", kind.as_str())
            },
        }
    }

    /// The lower-level reason of the error: the reason why a constant could
    /// not be rendered, where the error for invalid class data holds one.
    pub fn source(&self) -> (cause: Option<&ConstantPoolFormattingError>)
        ensures
            match self@ {
                ClassReaderErrorView::InvalidClassData(_, Some(c)) => cause == Some(&c),
                _ => cause is None,
            },
    {
        match self {
            ClassReaderError::InvalidClassData(_, Some(source)) => Some(source),
            _ => None,
        }
    }
}

impl From<ConstantPoolFormattingError> for ClassReaderError {
    /// A constant that could not be rendered makes the class data invalid.
    fn from(err: ConstantPoolFormattingError) -> (error: Self)
        ensures
            error@ == formatting_failure(err),
    {
        ClassReaderError::InvalidClassData(err.to_text(), Some(err))
    }
}

impl vstd::std_specs::convert::FromSpecImpl<ConstantPoolFormattingError> for ClassReaderError {
    open spec fn obeys_from_spec() -> bool {
        false
    }

    open spec fn from_spec(err: ConstantPoolFormattingError) -> Self {
        choose|error: ClassReaderError| error@ == formatting_failure(err)
    }
}

impl From<InvalidConstantPoolIndexError> for ClassReaderError {
    /// An access to a missing constant makes an index of the class data
    /// invalid.
    fn from(err: InvalidConstantPoolIndexError) -> (error: Self)
        ensures
            error@ == index_failure(err),
    {
        ClassReaderError::InvalidClassDataIndex(err.to_text(), Some(err))
    }
}

impl vstd::std_specs::convert::FromSpecImpl<InvalidConstantPoolIndexError> for ClassReaderError {
    open spec fn obeys_from_spec() -> bool {
        false
    }

    open spec fn from_spec(err: InvalidConstantPoolIndexError) -> Self {
        choose|error: ClassReaderError| error@ == index_failure(err)
    }
}

impl From<BufferError> for ClassReaderError {
    /// A failed read of the bytes keeps its kind.
    fn from(err: BufferError) -> (error: Self)
        ensures
            error@ == buffer_failure(err),
    {
        match err {
            BufferError::UnexpectedEndOfData => ClassReaderError::UnexpectedEndOfData,
            BufferError::InvalidCesu8String => ClassReaderError::InvalidTextEncoding,
        }
    }
}

impl vstd::std_specs::convert::FromSpecImpl<BufferError> for ClassReaderError {
    open spec fn obeys_from_spec() -> bool {
        true
    }

    open spec fn from_spec(err: BufferError) -> Self {
        match err {
            BufferError::UnexpectedEndOfData => ClassReaderError::UnexpectedEndOfData,
            BufferError::InvalidCesu8String => ClassReaderError::InvalidTextEncoding,
        }
    }
}

} // verus!
