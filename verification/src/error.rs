//! The failures that the operations on a path report.

use vstd::prelude::*;
use vstd::string::*;

verus! {

/// What the operating system said when it refused a request, as far as the
/// library tells failures apart.
#[derive(Debug, PartialEq, Eq)]
pub enum OsFailure {
    NotFound,
    NotADirectory,
    AlreadyExists,
    PermissionDenied,
    /// Any other refusal, with the system's own description.
    Other(String),
}

/// A failed operation: the condition, and the path on which it arose.
#[derive(Debug, PartialEq, Eq)]
pub enum Error {
    /// Nothing exists at the path.
    NotFound { path: String },
    /// A directory was needed and the path is something else.
    NotADirectory { path: String },
    /// The path is taken, and nothing is ever overwritten.
    AlreadyExists { path: String },
    /// The caller may not do this to the path.
    PermissionDenied { path: String },
    /// The path needs the home directory, which is not known.
    HomeDirUnavailable { path: String },
    /// Any other failure, with its description.
    FilesystemError { path: String, reason: String },
}

/// The mathematical content of an [`OsFailure`].
pub enum OsFailureView {
    NotFound,
    NotADirectory,
    AlreadyExists,
    PermissionDenied,
    Other(Seq<char>),
}

/// The mathematical content of an [`Error`].
pub enum ErrorView {
    NotFound { path: Seq<char> },
    NotADirectory { path: Seq<char> },
    AlreadyExists { path: Seq<char> },
    PermissionDenied { path: Seq<char> },
    HomeDirUnavailable { path: Seq<char> },
    FilesystemError { path: Seq<char>, reason: Seq<char> },
}

impl View for OsFailure {
    type V = OsFailureView;

    open spec fn view(&self) -> OsFailureView {
        match self {
            OsFailure::NotFound => OsFailureView::NotFound,
            OsFailure::NotADirectory => OsFailureView::NotADirectory,
            OsFailure::AlreadyExists => OsFailureView::AlreadyExists,
            OsFailure::PermissionDenied => OsFailureView::PermissionDenied,
            OsFailure::Other(reason) => OsFailureView::Other(reason@),
        }
    }
}

impl View for Error {
    type V = ErrorView;

    open spec fn view(&self) -> ErrorView {
        match self {
            Error::NotFound { path } => ErrorView::NotFound { path: path@ },
            Error::NotADirectory { path } => ErrorView::NotADirectory { path: path@ },
            Error::AlreadyExists { path } => ErrorView::AlreadyExists { path: path@ },
            Error::PermissionDenied { path } => ErrorView::PermissionDenied { path: path@ },
            Error::HomeDirUnavailable { path } => ErrorView::HomeDirUnavailable { path: path@ },
            Error::FilesystemError { path, reason } => ErrorView::FilesystemError {
                path: path@,
                reason: reason@,
            },
        }
    }
}

impl ErrorView {
    /// The error that reports the failure `failure` of a request on `path`.
    pub open spec fn of_failure(failure: OsFailureView, path: Seq<char>) -> ErrorView {
        match failure {
            OsFailureView::NotFound => ErrorView::NotFound { path },
            OsFailureView::NotADirectory => ErrorView::NotADirectory { path },
            OsFailureView::AlreadyExists => ErrorView::AlreadyExists { path },
            OsFailureView::PermissionDenied => ErrorView::PermissionDenied { path },
            OsFailureView::Other(reason) => ErrorView::FilesystemError { path, reason },
        }
    }

    /// The path that the error names.
    pub open spec fn path(self) -> Seq<char> {
        match self {
            ErrorView::NotFound { path } => path,
            ErrorView::NotADirectory { path } => path,
            ErrorView::AlreadyExists { path } => path,
            ErrorView::PermissionDenied { path } => path,
            ErrorView::HomeDirUnavailable { path } => path,
            ErrorView::FilesystemError { path, .. } => path,
        }
    }

    /// The sentence that describes the error to a reader.
    pub open spec fn message(self) -> Seq<char> {
        match self {
            ErrorView::NotFound { path } => "'"@ + path + "' does not exist"@,
            ErrorView::NotADirectory { path } => "'"@ + path + "' is not a directory"@,
            ErrorView::AlreadyExists { path } => "'"@ + path + "' already exists"@,
            ErrorView::PermissionDenied { path } => "'"@ + path + "': permission denied"@,
            ErrorView::HomeDirUnavailable { path } => "'"@ + path
                + "': the home directory is not available"@,
            ErrorView::FilesystemError { path, reason } => "'"@ + path + "': "@ + reason,
        }
    }
}

impl Error {
    /// Reports the failure of a request on `path`.
    pub fn from_failure(failure: OsFailure, path: &str) -> (error: Error)
        ensures
            error@ == ErrorView::of_failure(failure@, path@),
    {
        let path = String::from_str(path);
        match failure {
            OsFailure::NotFound => Error::NotFound { path },
            OsFailure::NotADirectory => Error::NotADirectory { path },
            OsFailure::AlreadyExists => Error::AlreadyExists { path },
            OsFailure::PermissionDenied => Error::PermissionDenied { path },
            OsFailure::Other(reason) => Error::FilesystemError { path, reason },
        }
    }

    /// The path that the error names.
    pub fn path(&self) -> (path: &String)
        ensures
            path@ == self@.path(),
    {
        match self {
            Error::NotFound { path } => path,
            Error::NotADirectory { path } => path,
            Error::AlreadyExists { path } => path,
            Error::PermissionDenied { path } => path,
            Error::HomeDirUnavailable { path } => path,
            Error::FilesystemError { path, .. } => path,
        }
    }

    /// Describes the error in a sentence.
    pub fn to_string(&self) -> (text: String)
        ensures
            text@ == self@.message(),
    {
        let mut text = String::from_str("'");
        text.append(self.path().as_str());
        match self {
            Error::NotFound { .. } => text.append("' does not exist"),
            Error::NotADirectory { .. } => text.append("' is not a directory"),
            Error::AlreadyExists { .. } => text.append("' already exists"),
            Error::PermissionDenied { .. } => text.append("': permission denied"),
            Error::HomeDirUnavailable { .. } => text.append(
                "': the home directory is not available",
            ),
            Error::FilesystemError { reason, .. } => {
                text.append("': ");
                text.append(reason.as_str());
            },
        }
        text
    }
}

} // verus!
