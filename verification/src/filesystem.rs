//! The calls on the file system that the notes manager asks for, and the
//! answers that it takes. The manager makes no call itself: an operation is
//! a state that names the call it waits for and, given the answer, either
//! names the next call or ends with its result.

use crate::errors::{IoError, IoErrorKind, IoErrorView, MemoriaError, MemoriaErrorView};
use vstd::prelude::*;

verus! {

/// What stands at a path.
#[derive(Clone, Copy, Debug, PartialEq, Eq, Structural)]
pub enum PathKind {
    /// Nothing: the path does not exist.
    Missing,
    /// A regular file.
    File,
    /// A directory.
    Directory,
    /// Something that is neither a regular file nor a directory.
    Other,
}

/// A call on the file system.
#[derive(Debug)]
pub enum Request {
    /// Find out what stands at the path.
    Probe { path: String },
    /// Read the file at the path as text.
    ReadFile { path: String },
    /// List the paths of the entries of the directory at the path.
    ReadDirectory { path: String },
    /// Write the content to the file at the path.
    WriteFile { path: String, content: String },
    /// Make the directory at the path, with the directories above it.
    CreateDirectory { path: String },
}

/// A `Request` with its texts as sequences of characters.
pub enum RequestView {
    Probe { path: Seq<char> },
    ReadFile { path: Seq<char> },
    ReadDirectory { path: Seq<char> },
    WriteFile { path: Seq<char>, content: Seq<char> },
    CreateDirectory { path: Seq<char> },
}

impl View for Request {
    type V = RequestView;

    open spec fn view(&self) -> RequestView {
        match self {
            Request::Probe { path } => RequestView::Probe { path: path@ },
            Request::ReadFile { path } => RequestView::ReadFile { path: path@ },
            Request::ReadDirectory { path } => RequestView::ReadDirectory { path: path@ },
            Request::WriteFile { path, content } => RequestView::WriteFile {
                path: path@,
                content: content@,
            },
            Request::CreateDirectory { path } => RequestView::CreateDirectory { path: path@ },
        }
    }
}

/// The answer to a call on the file system.
#[derive(Debug)]
pub enum Response {
    /// The answer to `Probe`.
    Probed(PathKind),
    /// The answer to `ReadFile`: the text of the file.
    FileRead(Result<String, IoError>),
    /// The answer to `ReadDirectory`: the entries in the order in which the
    /// system gave them, each with its path or with the failure to read it.
    DirectoryRead(Result<Vec<Result<String, IoError>>, IoError>),
    /// The answer to `WriteFile`.
    FileWritten(Result<(), IoError>),
    /// The answer to `CreateDirectory`.
    DirectoryCreated(Result<(), IoError>),
}

/// A `Response` with its texts as sequences of characters.
pub enum ResponseView {
    Probed(PathKind),
    FileRead(Result<Seq<char>, IoErrorView>),
    DirectoryRead(Result<Seq<Result<Seq<char>, IoErrorView>>, IoErrorView>),
    FileWritten(Result<(), IoErrorView>),
    DirectoryCreated(Result<(), IoErrorView>),
}

/// The outcome of a call that gives a text, as a sequence of characters.
pub open spec fn text_outcome(outcome: Result<String, IoError>) -> Result<
    Seq<char>,
    IoErrorView,
> {
    match outcome {
        Ok(text) => Ok(text@),
        Err(failure) => Err(failure@),
    }
}

/// The outcome of a call that gives nothing, with its failure as a
/// mathematical value.
pub open spec fn unit_outcome(outcome: Result<(), IoError>) -> Result<(), IoErrorView> {
    match outcome {
        Ok(_) => Ok(()),
        Err(failure) => Err(failure@),
    }
}

/// The entries of a directory with their texts as sequences of characters.
pub open spec fn entry_views(entries: Seq<Result<String, IoError>>) -> Seq<
    Result<Seq<char>, IoErrorView>,
> {
    Seq::new(entries.len(), |i: int| text_outcome(entries[i]))
}

impl View for Response {
    type V = ResponseView;

    open spec fn view(&self) -> ResponseView {
        match self {
            Response::Probed(kind) => ResponseView::Probed(*kind),
            Response::FileRead(outcome) => ResponseView::FileRead(text_outcome(*outcome)),
            Response::DirectoryRead(outcome) => ResponseView::DirectoryRead(
                match outcome {
                    Ok(entries) => Ok(entry_views(entries@)),
                    Err(failure) => Err(failure@),
                },
            ),
            Response::FileWritten(outcome) => ResponseView::FileWritten(unit_outcome(*outcome)),
            Response::DirectoryCreated(outcome) => ResponseView::DirectoryCreated(
                unit_outcome(*outcome),
            ),
        }
    }
}

/// How an operation goes on after an answer: with the next call and the
/// state that waits for it, or with its result.
#[derive(Debug)]
pub enum Step<S, T> {
    Ask(S, Request),
    Done(Result<T, MemoriaError>),
}

/// A `Step` with its state, call and result as mathematical values.
pub enum StepView<S, T> {
    Ask(S, RequestView),
    Done(Result<T, MemoriaErrorView>),
}

impl<S: View, T: DeepView> View for Step<S, T> {
    type V = StepView<S::V, T::V>;

    open spec fn view(&self) -> StepView<S::V, T::V> {
        match self {
            Step::Ask(state, request) => StepView::Ask(state@, request@),
            Step::Done(Ok(value)) => StepView::Done(Ok(value.deep_view())),
            Step::Done(Err(error)) => StepView::Done(Err(error@)),
        }
    }
}

/// The error with which an operation ends when the answer is not one to
/// the call that it waits for.
pub open spec fn unexpected_response() -> MemoriaErrorView {
    MemoriaErrorView::Io(
        IoErrorView { kind: IoErrorKind::Other, message: "unexpected response"@ },
    )
}

/// The error with which an operation ends when the answer is not one to
/// the call that it waits for.
pub fn unexpected() -> (error: MemoriaError)
    ensures
        error@ == unexpected_response(),
{
    MemoriaError::Io(
        IoError { kind: IoErrorKind::Other, message: "unexpected response".to_owned() },
    )
}

} // verus!
