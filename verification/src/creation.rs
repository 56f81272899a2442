//! The making of a new note in a directory.

use crate::content::{note_content, note_text};
use crate::errors::{
    error_view, map_io_error_with_context, mapped_io_error, MemoriaError, MemoriaErrorView,
};
use crate::filename::{join_path, joined, sanitize_filename, sanitized};
use crate::filesystem::{
    unexpected, unexpected_response, PathKind, Request, RequestView, Response, ResponseView, Step,
    StepView,
};
use crate::notes::{load_resume, load_start, Loading, LoadingView, Note, NoteView};
use crate::text::join2;
use vstd::prelude::*;

verus! {

/// What the making of a new note waits for.
#[derive(Debug)]
pub enum CreationStage {
    /// What stands at the path of the directory.
    CheckingDirectory,
    /// What stands at the path of the new note.
    CheckingTarget,
    /// The writing of the new note.
    Writing,
    /// The note, made from the file that was written.
    Loading { load: Loading },
}

/// A `CreationStage` with its texts as sequences of characters.
pub enum CreationStageView {
    CheckingDirectory,
    CheckingTarget,
    Writing,
    Loading { load: LoadingView },
}

impl View for CreationStage {
    type V = CreationStageView;

    open spec fn view(&self) -> CreationStageView {
        match self {
            CreationStage::CheckingDirectory => CreationStageView::CheckingDirectory,
            CreationStage::CheckingTarget => CreationStageView::CheckingTarget,
            CreationStage::Writing => CreationStageView::Writing,
            CreationStage::Loading { load } => CreationStageView::Loading { load: load@ },
        }
    }
}

/// The making of a new note, waiting for an answer of the file system.
#[derive(Debug)]
pub struct Creation {
    directory: String,
    path: String,
    content: String,
    stage: CreationStage,
}

/// The making of a new note as a mathematical value: the directory, the
/// path and the content of the new note, and what the making waits for.
pub struct CreationView {
    pub directory: Seq<char>,
    pub path: Seq<char>,
    pub content: Seq<char>,
    pub stage: CreationStageView,
}

impl View for Creation {
    type V = CreationView;

    closed spec fn view(&self) -> CreationView {
        CreationView {
            directory: self.directory@,
            path: self.path@,
            content: self.content@,
            stage: self.stage@,
        }
    }
}

/// The error for a notes directory whose path holds something other than
/// a directory.
pub open spec fn not_a_directory(directory: Seq<char>) -> MemoriaErrorView {
    MemoriaErrorView::InvalidFormat { message: "Path is not a directory: "@ + directory }
}

/// Whether `directory` can hold notes, from what stands at its path: a
/// path that does not exist is a missing directory, and one that holds
/// something else than a directory is of an invalid format.
pub open spec fn validated(directory: Seq<char>, kind: PathKind) -> Result<(), MemoriaErrorView> {
    match kind {
        PathKind::Missing => Err(MemoriaErrorView::DirectoryNotFound { path: directory }),
        PathKind::Directory => Ok(()),
        _ => Err(not_a_directory(directory)),
    }
}

/// The name of the file of the note with the given title.
pub open spec fn note_file_name(title: Seq<char>) -> Seq<char> {
    sanitized(title) + seq!['.', 'm', 'd']
}

/// The path of the note with the given title in `directory`.
pub open spec fn note_path(directory: Seq<char>, title: Seq<char>) -> Seq<char> {
    joined(directory, note_file_name(title))
}

/// How the making of the note with the given title begins: by asking what
/// stands at the path of the directory.
pub open spec fn create_start(
    directory: Seq<char>,
    title: Seq<char>,
    created_at: Seq<char>,
) -> StepView<CreationView, NoteView> {
    StepView::Ask(
        CreationView {
            directory,
            path: note_path(directory, title),
            content: note_text(created_at, title),
            stage: CreationStageView::CheckingDirectory,
        },
        RequestView::Probe { path: directory },
    )
}

/// How the making of a new note goes on with a step of the making of the
/// note from the file that was written.
pub open spec fn create_with_load(
    state: CreationView,
    step: StepView<LoadingView, NoteView>,
) -> StepView<CreationView, NoteView> {
    match step {
        StepView::Ask(load, request) => StepView::Ask(
            CreationView { stage: CreationStageView::Loading { load }, ..state },
            request,
        ),
        StepView::Done(outcome) => StepView::Done(outcome),
    }
}

/// How the making of a new note goes on after an answer. The directory
/// must be one, and nothing may stand at the path of the new note: a note
/// that exists is never written over. The content is then written, and the
/// note is made from the file that was written.
pub open spec fn create_resume(state: CreationView, response: ResponseView) -> StepView<
    CreationView,
    NoteView,
> {
    match state.stage {
        CreationStageView::CheckingDirectory => match response {
            ResponseView::Probed(kind) => match validated(state.directory, kind) {
                Ok(_) => StepView::Ask(
                    CreationView { stage: CreationStageView::CheckingTarget, ..state },
                    RequestView::Probe { path: state.path },
                ),
                Err(error) => StepView::Done(Err(error)),
            },
            _ => StepView::Done(Err(unexpected_response())),
        },
        CreationStageView::CheckingTarget => match response {
            ResponseView::Probed(PathKind::Missing) => StepView::Ask(
                CreationView { stage: CreationStageView::Writing, ..state },
                RequestView::WriteFile { path: state.path, content: state.content },
            ),
            ResponseView::Probed(_) => StepView::Done(
                Err(MemoriaErrorView::NoteExists { path: state.path }),
            ),
            _ => StepView::Done(Err(unexpected_response())),
        },
        CreationStageView::Writing => match response {
            ResponseView::FileWritten(Ok(_)) => create_with_load(state, load_start(state.path)),
            ResponseView::FileWritten(Err(failure)) => StepView::Done(
                Err(mapped_io_error(failure, state.path)),
            ),
            _ => StepView::Done(Err(unexpected_response())),
        },
        CreationStageView::Loading { load } => create_with_load(
            state,
            load_resume(load, response),
        ),
    }
}

/// Whether `directory` can hold notes, from what stands at its path.
pub fn validate(directory: &str, kind: PathKind) -> (outcome: Result<(), MemoriaError>)
    ensures
        error_view(outcome) == validated(directory@, kind),
{
    match kind {
        PathKind::Missing => Err(MemoriaError::DirectoryNotFound { path: directory.to_owned() }),
        PathKind::Directory => Ok(()),
        _ => Err(
            MemoriaError::InvalidFormat { message: join2("Path is not a directory: ", directory) },
        ),
    }
}

/// The path of the note with the given title in `directory`.
pub fn note_path_in(directory: &str, title: &str) -> (path: String)
    ensures
        path@ == note_path(directory@, title@),
{
    let name = sanitize_filename(title);
    proof {
        reveal_strlit(".md");
    }
    let file = join2(name.as_str(), ".md");
    join_path(directory, file.as_str())
}

impl Creation {
    /// Begins the making of the note with the given title in `directory`,
    /// with `created_at` as the time of its making.
    pub fn begin(directory: &str, title: &str, created_at: &str) -> (step: Step<Creation, Note>)
        ensures
            step@ == create_start(directory@, title@, created_at@),
    {
        Step::Ask(
            Creation {
                directory: directory.to_owned(),
                path: note_path_in(directory, title),
                content: note_content(created_at, title),
                stage: CreationStage::CheckingDirectory,
            },
            Request::Probe { path: directory.to_owned() },
        )
    }

    /// Goes on with a step of the making of the note from the file that
    /// was written.
    fn with_load(
        directory: String,
        path: String,
        content: String,
        step: Step<Loading, Note>,
    ) -> (next: Step<Creation, Note>)
        ensures
            forall|stage: CreationStageView|
                next@ == create_with_load(
                    CreationView { directory: directory@, path: path@, content: content@, stage },
                    step@,
                ),
    {
        match step {
            Step::Ask(load, request) => Step::Ask(
                Creation { directory, path, content, stage: CreationStage::Loading { load } },
                request,
            ),
            Step::Done(outcome) => Step::Done(outcome),
        }
    }

    /// Goes on with the making of the note after an answer of the file
    /// system.
    pub fn resume(self, response: Response) -> (step: Step<Creation, Note>)
        ensures
            step@ == create_resume(self@, response@),
    {
        let Creation { directory, path, content, stage } = self;
        match stage {
            CreationStage::CheckingDirectory => match response {
                Response::Probed(kind) => match validate(directory.as_str(), kind) {
                    Ok(_) => {
                        let target = path.clone();
                        Step::Ask(
                            Creation {
                                directory,
                                path,
                                content,
                                stage: CreationStage::CheckingTarget,
                            },
                            Request::Probe { path: target },
                        )
                    },
                    Err(error) => Step::Done(Err(error)),
                },
                _ => Step::Done(Err(unexpected())),
            },
            CreationStage::CheckingTarget => match response {
                Response::Probed(PathKind::Missing) => {
                    let target = path.clone();
                    let text = content.clone();
                    Step::Ask(
                        Creation { directory, path, content, stage: CreationStage::Writing },
                        Request::WriteFile { path: target, content: text },
                    )
                },
                Response::Probed(_) => Step::Done(Err(MemoriaError::NoteExists { path })),
                _ => Step::Done(Err(unexpected())),
            },
            CreationStage::Writing => match response {
                Response::FileWritten(Ok(_)) => {
                    let step = Note::from_path(path.as_str());
                    Creation::with_load(directory, path, content, step)
                },
                Response::FileWritten(Err(failure)) => Step::Done(
                    Err(map_io_error_with_context(failure, path.as_str())),
                ),
                _ => Step::Done(Err(unexpected())),
            },
            CreationStage::Loading { load } => {
                let step = load.resume(response);
                Creation::with_load(directory, path, content, step)
            },
        }
    }
}

} // verus!
