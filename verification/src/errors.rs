//! The errors of the notes manager and the mapping of failed system calls
//! onto them.

use crate::text::{chars_of, ends_with_ignoring_case, has_suffix_ignoring_case, join2};
use vstd::prelude::*;

verus! {

/// The kinds of failed system calls that the mapping tells apart.
#[derive(Clone, Copy, Debug, PartialEq, Eq, Structural)]
pub enum IoErrorKind {
    /// The path does not exist.
    NotFound,
    /// The caller may not access the path.
    PermissionDenied,
    /// Any other failure.
    Other,
}

/// A failed system call: its kind and the system's own message.
#[derive(Debug)]
pub struct IoError {
    pub kind: IoErrorKind,
    pub message: String,
}

/// An `IoError` with its message as a sequence of characters.
pub struct IoErrorView {
    pub kind: IoErrorKind,
    pub message: Seq<char>,
}

impl View for IoError {
    type V = IoErrorView;

    open spec fn view(&self) -> IoErrorView {
        IoErrorView { kind: self.kind, message: self.message@ }
    }
}

impl Clone for IoError {
    fn clone(&self) -> (copy: Self)
        ensures
            copy == *self,
    {
        IoError { kind: self.kind, message: self.message.clone() }
    }
}

/// What can go wrong in the notes manager.
#[derive(Debug)]
pub enum MemoriaError {
    /// The directory at the path does not exist.
    DirectoryNotFound { path: String },
    /// The path may not be accessed.
    PermissionDenied { path: String },
    /// The file at the path does not exist.
    FileNotFound { path: String },
    /// What stands at a path is not what a note or its directory must be.
    InvalidFormat { message: String },
    /// Any other failed system call.
    Io(IoError),
    /// The directory at the path holds no note.
    EmptyNotesDirectory { path: String },
    /// Something stands at the path of a note that is to be made.
    NoteExists { path: String },
    /// No note stands at the path. No operation gives this error yet.
    NoteNotFound { path: String },
}

/// A `MemoriaError` with its texts as sequences of characters.
pub enum MemoriaErrorView {
    DirectoryNotFound { path: Seq<char> },
    PermissionDenied { path: Seq<char> },
    FileNotFound { path: Seq<char> },
    InvalidFormat { message: Seq<char> },
    Io(IoErrorView),
    EmptyNotesDirectory { path: Seq<char> },
    NoteExists { path: Seq<char> },
    NoteNotFound { path: Seq<char> },
}

impl View for MemoriaError {
    type V = MemoriaErrorView;

    open spec fn view(&self) -> MemoriaErrorView {
        match self {
            MemoriaError::DirectoryNotFound { path } => MemoriaErrorView::DirectoryNotFound {
                path: path@,
            },
            MemoriaError::PermissionDenied { path } => MemoriaErrorView::PermissionDenied {
                path: path@,
            },
            MemoriaError::FileNotFound { path } => MemoriaErrorView::FileNotFound { path: path@ },
            MemoriaError::InvalidFormat { message } => MemoriaErrorView::InvalidFormat {
                message: message@,
            },
            MemoriaError::Io(failure) => MemoriaErrorView::Io(failure@),
            MemoriaError::EmptyNotesDirectory { path } => MemoriaErrorView::EmptyNotesDirectory {
                path: path@,
            },
            MemoriaError::NoteExists { path } => MemoriaErrorView::NoteExists { path: path@ },
            MemoriaError::NoteNotFound { path } => MemoriaErrorView::NoteNotFound { path: path@ },
        }
    }
}

impl Clone for MemoriaError {
    fn clone(&self) -> (copy: Self)
        ensures
            copy == *self,
    {
        match self {
            MemoriaError::DirectoryNotFound { path } => MemoriaError::DirectoryNotFound {
                path: path.clone(),
            },
            MemoriaError::PermissionDenied { path } => MemoriaError::PermissionDenied {
                path: path.clone(),
            },
            MemoriaError::FileNotFound { path } => MemoriaError::FileNotFound {
                path: path.clone(),
            },
            MemoriaError::InvalidFormat { message } => MemoriaError::InvalidFormat {
                message: message.clone(),
            },
            MemoriaError::Io(failure) => MemoriaError::Io(failure.clone()),
            MemoriaError::EmptyNotesDirectory { path } => MemoriaError::EmptyNotesDirectory {
                path: path.clone(),
            },
            MemoriaError::NoteExists { path } => MemoriaError::NoteExists { path: path.clone() },
            MemoriaError::NoteNotFound { path } => MemoriaError::NoteNotFound {
                path: path.clone(),
            },
        }
    }
}

impl From<IoError> for MemoriaError {
    /// A failed system call as an error of the notes manager, kept as it
    /// is.
    fn from(failure: IoError) -> (error: MemoriaError) {
        MemoriaError::Io(failure)
    }
}

impl vstd::std_specs::convert::FromSpecImpl<IoError> for MemoriaError {
    open spec fn obeys_from_spec() -> bool {
        true
    }

    open spec fn from_spec(failure: IoError) -> MemoriaError {
        MemoriaError::Io(failure)
    }
}

/// The one-line description of an error.
pub open spec fn description(error: MemoriaErrorView) -> Seq<char> {
    match error {
        MemoriaErrorView::DirectoryNotFound { path } => "Directory not found: "@ + path,
        MemoriaErrorView::PermissionDenied { path } => "Permission denied: "@ + path,
        MemoriaErrorView::FileNotFound { path } => "File not found: "@ + path,
        MemoriaErrorView::InvalidFormat { message } => "Invalid file format: "@ + message,
        MemoriaErrorView::Io(_) => "IO error"@,
        MemoriaErrorView::EmptyNotesDirectory { path } => "Empty notes directory: "@ + path,
        MemoriaErrorView::NoteExists { path } => "Note exists: "@ + path,
        MemoriaErrorView::NoteNotFound { path } => "Note not found: "@ + path,
    }
}

impl MemoriaError {
    /// The one-line description of this error.
    pub fn describe(&self) -> (text: String)
        ensures
            text@ == description(self@),
    {
        match self {
            MemoriaError::DirectoryNotFound { path } => join2("Directory not found: ", path),
            MemoriaError::PermissionDenied { path } => join2("Permission denied: ", path),
            MemoriaError::FileNotFound { path } => join2("File not found: ", path),
            MemoriaError::InvalidFormat { message } => join2("Invalid file format: ", message),
            MemoriaError::Io(_) => "IO error".to_owned(),
            MemoriaError::EmptyNotesDirectory { path } => join2("Empty notes directory: ", path),
            MemoriaError::NoteExists { path } => join2("Note exists: ", path),
            MemoriaError::NoteNotFound { path } => join2("Note not found: ", path),
        }
    }
}

/// Whether a path looks like that of a markdown file: it ends in `.md` or
/// in `.markdown`, in any case of the letters.
pub open spec fn names_markdown(path: Seq<char>) -> bool {
    ||| ends_with_ignoring_case(path, seq!['.', 'm', 'd'])
    ||| ends_with_ignoring_case(path, seq!['.', 'm', 'a', 'r', 'k', 'd', 'o', 'w', 'n'])
}

/// The error that stands for a system call that failed on `path`: a missing
/// path is a missing file where the path looks like that of a markdown file
/// and a missing directory elsewhere, a refusal is a denied permission, and
/// any other failure is kept as it is.
pub open spec fn mapped_io_error(failure: IoErrorView, path: Seq<char>) -> MemoriaErrorView {
    match failure.kind {
        IoErrorKind::NotFound => if names_markdown(path) {
            MemoriaErrorView::FileNotFound { path }
        } else {
            MemoriaErrorView::DirectoryNotFound { path }
        },
        IoErrorKind::PermissionDenied => MemoriaErrorView::PermissionDenied { path },
        IoErrorKind::Other => MemoriaErrorView::Io(failure),
    }
}

/// Maps a failed system call on `path` to the error of the notes manager
/// that stands for it.
pub fn map_io_error_with_context(e: IoError, path: &str) -> (error: MemoriaError)
    ensures
        error@ == mapped_io_error(e@, path@),
{
    match e.kind {
        IoErrorKind::NotFound => {
            let chars = chars_of(path);
            let md = vec!['.', 'm', 'd'];
            let markdown = vec!['.', 'm', 'a', 'r', 'k', 'd', 'o', 'w', 'n'];
            if has_suffix_ignoring_case(&chars, &md) || has_suffix_ignoring_case(
                &chars,
                &markdown,
            ) {
                MemoriaError::FileNotFound { path: path.to_owned() }
            } else {
                MemoriaError::DirectoryNotFound { path: path.to_owned() }
            }
        },
        IoErrorKind::PermissionDenied => MemoriaError::PermissionDenied { path: path.to_owned() },
        IoErrorKind::Other => MemoriaError::Io(e),
    }
}

/// An outcome with its error as a mathematical value.
pub open spec fn error_view<T>(outcome: Result<T, MemoriaError>) -> Result<T, MemoriaErrorView> {
    match outcome {
        Ok(value) => Ok(value),
        Err(error) => Err(error@),
    }
}

/// The outcome of a system call on `path`, with a failure mapped to the
/// error of the notes manager that stands for it.
pub open spec fn with_context<T>(outcome: Result<T, IoError>, path: Seq<char>) -> Result<
    T,
    MemoriaErrorView,
> {
    match outcome {
        Ok(value) => Ok(value),
        Err(failure) => Err(mapped_io_error(failure@, path)),
    }
}

/// Outcomes of system calls whose failure can be put in the context of
/// the path on which the call was made.
pub trait MemoriaContext<T> {
    /// What `with_path_context` gives.
    spec fn in_context(self, path: Seq<char>) -> Result<T, MemoriaErrorView>;

    /// The outcome with a failure mapped to the error that stands for it
    /// on `path`.
    fn with_path_context(self, path: &str) -> (outcome: Result<T, MemoriaError>)
        ensures
            error_view(outcome) == self.in_context(path@),
    ;
}

impl<T> MemoriaContext<T> for Result<T, IoError> {
    open spec fn in_context(self, path: Seq<char>) -> Result<T, MemoriaErrorView> {
        with_context(self, path)
    }

    fn with_path_context(self, path: &str) -> (outcome: Result<T, MemoriaError>) {
        match self {
            Ok(value) => Ok(value),
            Err(failure) => Err(map_io_error_with_context(failure, path)),
        }
    }
}

} // verus!
