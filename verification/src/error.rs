//! The errors of the library.

use vstd::prelude::*;
use vstd::string::*;

use crate::text;
use crate::text::{around, around_u64, join, u64_text};

verus! {

/// Why an operation was refused.
#[derive(Debug)]
pub enum Error {
    /// A generic error with a message.
    Generic(String),
    /// An invariant of the library itself was broken.
    InternalError(String),
    /// A checkpoint is malformed.
    InvalidCheckpoint(String),
    /// A log path is malformed.
    InvalidLogPath(String),
    /// A connector-provided snapshot hint is unusable.
    InvalidSnapshotHint(String),
    /// A table location is not a URL.
    InvalidUrl(String),
    /// A protocol is not one that a table can have.
    InvalidProtocol(String),
    /// The maximum catalog version conflicts with the request or with the table.
    MaxCatalogVersion(String),
    /// The operation is not supported.
    Unsupported(String),
    /// A checksum cannot be written for this state.
    ChecksumWriteUnsupported(String),
    /// A JSON document does not have the expected shape.
    MalformedJson(String),
    /// Bytes that should be UTF-8 are not.
    Utf8Error(String),
    /// Two neighbours of the log tail do not have consecutive versions.
    LogTailVersionsNotContiguous { first_version: u64, second_version: u64 },
    /// The operation was cancelled.
    Cancelled,
    /// An error with the backtrace of the place where it was raised.
    Backtraced { source: Box<Error>, backtrace: String },
    /// An error of another component, carried by its text.
    Other(String),
}

/// The mathematical value of an [`Error`].
pub enum ErrorView {
    Generic(Seq<char>),
    InternalError(Seq<char>),
    InvalidCheckpoint(Seq<char>),
    InvalidLogPath(Seq<char>),
    InvalidSnapshotHint(Seq<char>),
    InvalidUrl(Seq<char>),
    InvalidProtocol(Seq<char>),
    MaxCatalogVersion(Seq<char>),
    Unsupported(Seq<char>),
    ChecksumWriteUnsupported(Seq<char>),
    MalformedJson(Seq<char>),
    Utf8Error(Seq<char>),
    LogTailVersionsNotContiguous { first_version: u64, second_version: u64 },
    Cancelled,
    Backtraced { source: Box<ErrorView>, backtrace: Seq<char> },
    Other(Seq<char>),
}

impl ErrorView {
    /// The text that a user sees.
    pub open spec fn text(self) -> Seq<char>
        decreases self,
    {
        match self {
            ErrorView::Generic(m) => "Generic delta kernel error: "@ + m,
            ErrorView::InternalError(m) => "Internal error "@ + m
                + ". This is a kernel bug, please report."@,
            ErrorView::InvalidCheckpoint(m) => "Invalid Checkpoint: "@ + m,
            ErrorView::InvalidLogPath(m) => "Invalid log path: "@ + m,
            ErrorView::InvalidSnapshotHint(m) => "Invalid snapshot hint: "@ + m,
            ErrorView::InvalidUrl(m) => "Invalid url: "@ + m,
            ErrorView::InvalidProtocol(m) => "Invalid protocol action in the delta log: "@ + m,
            ErrorView::MaxCatalogVersion(m) => "Max catalog version error: "@ + m,
            ErrorView::Unsupported(m) => "Unsupported: "@ + m,
            ErrorView::ChecksumWriteUnsupported(m) => "Checksum write unsupported: "@ + m,
            ErrorView::MalformedJson(m) => m,
            ErrorView::Utf8Error(m) => m,
            ErrorView::LogTailVersionsNotContiguous { first_version, second_version } =>
                "Log tail versions are not contiguous: "@ + text::int_text(first_version as int)
                    + " is followed by "@ + text::int_text(second_version as int),
            ErrorView::Cancelled => "Operation cancelled"@,
            ErrorView::Backtraced { source, backtrace } => source.text() + "\n"@ + backtrace,
            ErrorView::Other(m) => m,
        }
    }

    /// The message that an error keeps when it is reported as an invalid snapshot hint: the bare
    /// message of an error about malformed state, and the full text of any other. A backtrace is
    /// dropped.
    pub open spec fn hint_message(self) -> Seq<char>
        decreases self,
    {
        match self {
            ErrorView::Backtraced { source, .. } => source.hint_message(),
            ErrorView::Generic(m) => m,
            ErrorView::InternalError(m) => m,
            ErrorView::InvalidCheckpoint(m) => m,
            ErrorView::InvalidLogPath(m) => m,
            ErrorView::InvalidSnapshotHint(m) => m,
            _ => self.text(),
        }
    }
}

impl Error {
    /// The value of this error.
    pub open spec fn value(self) -> ErrorView
        decreases self,
    {
        match self {
            Error::Generic(m) => ErrorView::Generic(m@),
            Error::InternalError(m) => ErrorView::InternalError(m@),
            Error::InvalidCheckpoint(m) => ErrorView::InvalidCheckpoint(m@),
            Error::InvalidLogPath(m) => ErrorView::InvalidLogPath(m@),
            Error::InvalidSnapshotHint(m) => ErrorView::InvalidSnapshotHint(m@),
            Error::InvalidUrl(m) => ErrorView::InvalidUrl(m@),
            Error::InvalidProtocol(m) => ErrorView::InvalidProtocol(m@),
            Error::MaxCatalogVersion(m) => ErrorView::MaxCatalogVersion(m@),
            Error::Unsupported(m) => ErrorView::Unsupported(m@),
            Error::ChecksumWriteUnsupported(m) => ErrorView::ChecksumWriteUnsupported(m@),
            Error::MalformedJson(m) => ErrorView::MalformedJson(m@),
            Error::Utf8Error(m) => ErrorView::Utf8Error(m@),
            Error::LogTailVersionsNotContiguous { first_version, second_version } =>
                ErrorView::LogTailVersionsNotContiguous { first_version, second_version },
            Error::Cancelled => ErrorView::Cancelled,
            Error::Backtraced { source, backtrace } => ErrorView::Backtraced {
                source: Box::new(source.value()),
                backtrace: backtrace@,
            },
            Error::Other(m) => ErrorView::Other(m@),
        }
    }

    /// The text that a user sees.
    pub fn to_text(&self) -> (res: String)
        ensures
            res@ == self.deep_view().text(),
        decreases self,
    {
        match self {
            Error::Generic(m) => join("Generic delta kernel error: ", m.as_str()),
            Error::InternalError(m) => around(
                "Internal error ",
                m.as_str(),
                ". This is a kernel bug, please report.",
            ),
            Error::InvalidCheckpoint(m) => join("Invalid Checkpoint: ", m.as_str()),
            Error::InvalidLogPath(m) => join("Invalid log path: ", m.as_str()),
            Error::InvalidSnapshotHint(m) => join("Invalid snapshot hint: ", m.as_str()),
            Error::InvalidUrl(m) => join("Invalid url: ", m.as_str()),
            Error::InvalidProtocol(m) => join(
                "Invalid protocol action in the delta log: ",
                m.as_str(),
            ),
            Error::MaxCatalogVersion(m) => join("Max catalog version error: ", m.as_str()),
            Error::Unsupported(m) => join("Unsupported: ", m.as_str()),
            Error::ChecksumWriteUnsupported(m) => join("Checksum write unsupported: ", m.as_str()),
            Error::MalformedJson(m) => m.clone(),
            Error::Utf8Error(m) => m.clone(),
            Error::LogTailVersionsNotContiguous { first_version, second_version } => {
                let head = around_u64(
                    "Log tail versions are not contiguous: ",
                    *first_version,
                    " is followed by ",
                );
                join(head.as_str(), u64_text(*second_version).as_str())
            },
            Error::Cancelled => String::from_str("Operation cancelled"),
            Error::Backtraced { source, backtrace } => {
                let text = source.to_text();
                around(text.as_str(), "\n", backtrace.as_str())
            },
            Error::Other(m) => m.clone(),
        }
    }

    /// The message that this error keeps when it is reported as an invalid snapshot hint.
    pub fn into_hint_message(self) -> (res: String)
        ensures
            res@ == self.deep_view().hint_message(),
        decreases self,
    {
        match self {
            Error::Backtraced { source, .. } => {
                let inner: Error = *source;
                inner.into_hint_message()
            },
            Error::Generic(m) => m,
            Error::InternalError(m) => m,
            Error::InvalidCheckpoint(m) => m,
            Error::InvalidLogPath(m) => m,
            Error::InvalidSnapshotHint(m) => m,
            error => error.to_text(),
        }
    }
}

/// Whether `res` fails with this error.
pub open spec fn fails<T>(res: Result<T, Error>, e: ErrorView) -> bool {
    res matches Err(error) && error.deep_view() == e
}

/// What is left of a value once a host has answered for it.
pub open spec fn accepted<T>(value: T, answer: Result<(), Error>, res: Result<T, Error>) -> bool {
    match answer {
        Ok(()) => res == Ok::<T, Error>(value),
        Err(e) => res == Err::<T, Error>(e),
    }
}

impl DeepView for Error {
    type V = ErrorView;

    open spec fn deep_view(&self) -> ErrorView {
        self.value()
    }
}

/// The message that an error keeps as an invalid snapshot hint is its own message, without prefix,
/// where it is about malformed state; a backtrace adds nothing; any other error keeps its text.
pub proof fn law_hint_messages(message: Seq<char>, source: ErrorView, backtrace: Seq<char>)
    ensures
        ErrorView::Generic(message).hint_message() == message,
        ErrorView::InternalError(message).hint_message() == message,
        ErrorView::InvalidCheckpoint(message).hint_message() == message,
        ErrorView::InvalidLogPath(message).hint_message() == message,
        ErrorView::InvalidSnapshotHint(message).hint_message() == message,
        (ErrorView::Backtraced { source: Box::new(source), backtrace }).hint_message()
            == source.hint_message(),
        ErrorView::Unsupported(message).hint_message() == "Unsupported: "@ + message,
        ErrorView::MaxCatalogVersion(message).hint_message() == "Max catalog version error: "@
            + message,
        ErrorView::Utf8Error(message).hint_message() == message,
        ErrorView::MalformedJson(message).hint_message() == message,
        ErrorView::Other(message).hint_message() == message,
{
}

/// What is shown of an error is its kind followed by its message, except where the message is that
/// of another library, which stands alone.
pub proof fn law_error_texts(message: Seq<char>, source: ErrorView, backtrace: Seq<char>)
    ensures
        ErrorView::Generic(message).text() == "Generic delta kernel error: "@ + message,
        ErrorView::InternalError(message).text() == "Internal error "@ + message
            + ". This is a kernel bug, please report."@,
        ErrorView::InvalidCheckpoint(message).text() == "Invalid Checkpoint: "@ + message,
        ErrorView::InvalidLogPath(message).text() == "Invalid log path: "@ + message,
        ErrorView::InvalidSnapshotHint(message).text() == "Invalid snapshot hint: "@ + message,
        ErrorView::InvalidUrl(message).text() == "Invalid url: "@ + message,
        ErrorView::InvalidProtocol(message).text() == "Invalid protocol action in the delta log: "@
            + message,
        ErrorView::MaxCatalogVersion(message).text() == "Max catalog version error: "@ + message,
        ErrorView::Unsupported(message).text() == "Unsupported: "@ + message,
        ErrorView::ChecksumWriteUnsupported(message).text() == "Checksum write unsupported: "@
            + message,
        ErrorView::MalformedJson(message).text() == message,
        ErrorView::Utf8Error(message).text() == message,
        ErrorView::Other(message).text() == message,
        ErrorView::Cancelled.text() == "Operation cancelled"@,
        (ErrorView::Backtraced { source: Box::new(source), backtrace }).text() == source.text()
            + "\n"@ + backtrace,
{
}

/// A gap in a log tail is shown with the versions on both of its sides, the earlier file first.
pub proof fn law_gap_text(first_version: u64, second_version: u64)
    ensures
        (ErrorView::LogTailVersionsNotContiguous { first_version, second_version }).text()
            == "Log tail versions are not contiguous: "@ + text::int_text(first_version as int)
            + " is followed by "@ + text::int_text(second_version as int),
{
}

} // verus!
