//! Notes: markdown files with the titles that their contents give.

use crate::content::{extract_title, heading_title};
use crate::errors::{
    error_view, map_io_error_with_context, mapped_io_error, with_context, IoError, IoErrorView,
    MemoriaContext, MemoriaError, MemoriaErrorView,
};
use crate::filesystem::{
    unexpected, unexpected_response, PathKind, Request, RequestView, Response, ResponseView, Step,
    StepView,
};
use crate::text::join2;
use vstd::prelude::*;

verus! {

/// A note: a markdown file and the title that its content gives.
#[derive(Debug)]
pub struct Note {
    pub path: String,
    pub title: String,
}

/// A `Note` with its texts as sequences of characters.
pub struct NoteView {
    pub path: Seq<char>,
    pub title: Seq<char>,
}

impl View for Note {
    type V = NoteView;

    open spec fn view(&self) -> NoteView {
        NoteView { path: self.path@, title: self.title@ }
    }
}

impl DeepView for Note {
    type V = NoteView;

    open spec fn deep_view(&self) -> NoteView {
        self@
    }
}

impl Clone for Note {
    fn clone(&self) -> (copy: Self)
        ensures
            copy == *self,
    {
        Note { path: self.path.clone(), title: self.title.clone() }
    }
}

/// The making of a note from a path, waiting for an answer of the file
/// system.
#[derive(Debug)]
pub enum Loading {
    /// Waiting to learn what stands at the path.
    Probing { path: String },
    /// Waiting for the text of the file at the path.
    Reading { path: String },
}

/// A `Loading` with its path as a sequence of characters.
pub enum LoadingView {
    Probing { path: Seq<char> },
    Reading { path: Seq<char> },
}

impl View for Loading {
    type V = LoadingView;

    open spec fn view(&self) -> LoadingView {
        match self {
            Loading::Probing { path } => LoadingView::Probing { path: path@ },
            Loading::Reading { path } => LoadingView::Reading { path: path@ },
        }
    }
}

/// The error for a path that holds something other than a regular file.
pub open spec fn not_a_file(path: Seq<char>) -> MemoriaErrorView {
    MemoriaErrorView::InvalidFormat { message: "Path is not a file: "@ + path }
}

/// The error for a file whose content holds no heading line.
pub open spec fn no_title(path: Seq<char>) -> MemoriaErrorView {
    MemoriaErrorView::InvalidFormat { message: "Cannot extract title from content: "@ + path }
}

/// The note that the file at `path` gives, from what reading it gave: the
/// title is that of the first heading line of the content.
pub open spec fn note_from_text(
    path: Seq<char>,
    read: Result<Seq<char>, IoErrorView>,
) -> Result<NoteView, MemoriaErrorView> {
    match read {
        Ok(content) => match heading_title(content) {
            Some(title) => Ok(NoteView { path, title }),
            None => Err(no_title(path)),
        },
        Err(failure) => Err(mapped_io_error(failure, path)),
    }
}

/// How the making of a note from `path` begins: by asking what stands at
/// the path.
pub open spec fn load_start(path: Seq<char>) -> StepView<LoadingView, NoteView> {
    StepView::Ask(LoadingView::Probing { path }, RequestView::Probe { path })
}

/// How the making of a note goes on after an answer. A path that does not
/// exist is a missing file, and one that holds no regular file is of an
/// invalid format; a regular file is read, and its content gives the note.
pub open spec fn load_resume(state: LoadingView, response: ResponseView) -> StepView<
    LoadingView,
    NoteView,
> {
    match state {
        LoadingView::Probing { path } => match response {
            ResponseView::Probed(PathKind::Missing) => StepView::Done(
                Err(MemoriaErrorView::FileNotFound { path }),
            ),
            ResponseView::Probed(PathKind::File) => StepView::Ask(
                LoadingView::Reading { path },
                RequestView::ReadFile { path },
            ),
            ResponseView::Probed(_) => StepView::Done(Err(not_a_file(path))),
            _ => StepView::Done(Err(unexpected_response())),
        },
        LoadingView::Reading { path } => match response {
            ResponseView::FileRead(read) => StepView::Done(note_from_text(path, read)),
            _ => StepView::Done(Err(unexpected_response())),
        },
    }
}

impl Note {
    /// Begins the making of a note from the file at `path`.
    pub fn from_path(path: &str) -> (step: Step<Loading, Note>)
        ensures
            step@ == load_start(path@),
    {
        Step::Ask(
            Loading::Probing { path: path.to_owned() },
            Request::Probe { path: path.to_owned() },
        )
    }

    /// The path of the note as text.
    pub fn path_str(&self) -> (text: String)
        ensures
            text@ == self.path@,
    {
        self.path.clone()
    }

    /// The call that reads the content of the note.
    pub fn read_request(&self) -> (request: Request)
        ensures
            request@ == (RequestView::ReadFile { path: self.path@ }),
    {
        Request::ReadFile { path: self.path.clone() }
    }

    /// The content of the note, from what reading its file gave: a failure
    /// is mapped to the error that stands for it on the note's path.
    pub fn read_content(&self, read: Result<String, IoError>) -> (content: Result<
        String,
        MemoriaError,
    >)
        ensures
            error_view(content) == with_context(read, self.path@),
    {
        read.with_path_context(self.path.as_str())
    }
}

impl Loading {
    /// Goes on with the making of the note after an answer of the file
    /// system.
    pub fn resume(self, response: Response) -> (step: Step<Loading, Note>)
        ensures
            step@ == load_resume(self@, response@),
    {
        match self {
            Loading::Probing { path } => match response {
                Response::Probed(PathKind::Missing) => Step::Done(
                    Err(MemoriaError::FileNotFound { path }),
                ),
                Response::Probed(PathKind::File) => {
                    let target = path.clone();
                    Step::Ask(Loading::Reading { path }, Request::ReadFile { path: target })
                },
                Response::Probed(_) => Step::Done(
                    Err(
                        MemoriaError::InvalidFormat {
                            message: join2("Path is not a file: ", path.as_str()),
                        },
                    ),
                ),
                _ => Step::Done(Err(unexpected())),
            },
            Loading::Reading { path } => match response {
                Response::FileRead(Ok(content)) => match extract_title(content.as_str()) {
                    Some(title) => Step::Done(Ok(Note { path, title })),
                    None => Step::Done(
                        Err(
                            MemoriaError::InvalidFormat {
                                message: join2(
                                    "Cannot extract title from content: ",
                                    path.as_str(),
                                ),
                            },
                        ),
                    ),
                },
                Response::FileRead(Err(failure)) => Step::Done(
                    Err(map_io_error_with_context(failure, path.as_str())),
                ),
                _ => Step::Done(Err(unexpected())),
            },
        }
    }
}

} // verus!
