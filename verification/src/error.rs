//! Failures of launcher operations.

use vstd::prelude::*;

verus! {

/// Why a launcher operation failed.
#[derive(Debug, Clone, PartialEq, Eq)]
pub enum LauncherError {
    /// A field that the operation needs is not there.
    MissingField {
        /// What lacks the field.
        context: String,
        /// The name of the field.
        field: String,
    },
    /// A file does not have the checksum that it should have.
    ChecksumMismatch {
        /// The file.
        path: String,
        /// The checksum that was asked for.
        expected: String,
        /// The checksum that the contents have.
        actual: String,
    },
    /// A library coordinate cannot be turned into a path.
    InvalidLibrary(String),
    /// The file system refused an operation.
    Io(String),
    /// A request failed.
    Http(String),
}

/// What a failure says, as character sequences.
pub enum ErrorView {
    MissingField { context: Seq<char>, field: Seq<char> },
    ChecksumMismatch { path: Seq<char>, expected: Seq<char>, actual: Seq<char> },
    InvalidLibrary(Seq<char>),
    Io(Seq<char>),
    Http(Seq<char>),
}

impl View for LauncherError {
    type V = ErrorView;

    open spec fn view(&self) -> ErrorView {
        match *self {
            LauncherError::MissingField { context, field } => ErrorView::MissingField {
                context: context@,
                field: field@,
            },
            LauncherError::ChecksumMismatch { path, expected, actual } =>
                ErrorView::ChecksumMismatch {
                path: path@,
                expected: expected@,
                actual: actual@,
            },
            LauncherError::InvalidLibrary(reason) => ErrorView::InvalidLibrary(reason@),
            LauncherError::Io(reason) => ErrorView::Io(reason@),
            LauncherError::Http(reason) => ErrorView::Http(reason@),
        }
    }
}

} // verus!
