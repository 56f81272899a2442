//! The listing of the notes of a directory.

use crate::errors::{
    map_io_error_with_context, mapped_io_error, IoError, IoErrorView, MemoriaError,
    MemoriaErrorView,
};
use crate::filename::{is_markdown_file, is_markdown_path};
use crate::filesystem::{
    entry_views, unexpected, unexpected_response, PathKind, Request, RequestView, Response,
    ResponseView, Step, StepView,
};
use crate::notes::{load_resume, load_start, Loading, LoadingView, Note, NoteView};
use vstd::prelude::*;

verus! {

/// What a listing waits for.
#[derive(Debug)]
pub enum ListingStage {
    /// The entries of the directory.
    Opening,
    /// What stands at the path of the entry that the listing has reached.
    Probing { path: String },
    /// The note of the entry that the listing has reached.
    Loading { load: Loading },
}

/// A `ListingStage` with its texts as sequences of characters.
pub enum ListingStageView {
    Opening,
    Probing { path: Seq<char> },
    Loading { load: LoadingView },
}

impl View for ListingStage {
    type V = ListingStageView;

    open spec fn view(&self) -> ListingStageView {
        match self {
            ListingStage::Opening => ListingStageView::Opening,
            ListingStage::Probing { path } => ListingStageView::Probing { path: path@ },
            ListingStage::Loading { load } => ListingStageView::Loading { load: load@ },
        }
    }
}

/// The listing of the notes of a directory, waiting for an answer of the
/// file system.
#[derive(Debug)]
pub struct Listing {
    directory: String,
    entries: Vec<Result<String, IoError>>,
    position: usize,
    notes: Vec<Note>,
    stage: ListingStage,
}

/// A listing as a mathematical value: the directory, the entries that the
/// listing has not reached yet, the notes found so far, and what the listing
/// waits for.
pub struct ListingView {
    pub directory: Seq<char>,
    pub pending: Seq<Result<Seq<char>, IoErrorView>>,
    pub notes: Seq<NoteView>,
    pub stage: ListingStageView,
}

impl View for Listing {
    type V = ListingView;

    closed spec fn view(&self) -> ListingView {
        ListingView {
            directory: self.directory@,
            pending: entry_views(self.entries@).skip(self.position as int),
            notes: self.notes.deep_view(),
            stage: self.stage@,
        }
    }
}

/// The result of a listing that has reached the end of the entries: the
/// notes found, or an error where there is none.
pub open spec fn listed(directory: Seq<char>, notes: Seq<NoteView>) -> Result<
    Seq<NoteView>,
    MemoriaErrorView,
> {
    if notes.len() == 0 {
        Err(MemoriaErrorView::EmptyNotesDirectory { path: directory })
    } else {
        Ok(notes)
    }
}

/// How a listing turns to the entries that it has not reached yet: it ends
/// where none is left, fails on an entry that could not be read, and asks
/// what stands at the path of any other.
pub open spec fn list_advance(
    directory: Seq<char>,
    pending: Seq<Result<Seq<char>, IoErrorView>>,
    notes: Seq<NoteView>,
) -> StepView<ListingView, Seq<NoteView>> {
    if pending.len() == 0 {
        StepView::Done(listed(directory, notes))
    } else {
        match pending.first() {
            Err(failure) => StepView::Done(Err(MemoriaErrorView::Io(failure))),
            Ok(path) => StepView::Ask(
                ListingView {
                    directory,
                    pending: pending.drop_first(),
                    notes,
                    stage: ListingStageView::Probing { path },
                },
                RequestView::Probe { path },
            ),
        }
    }
}

/// How a listing begins: by asking for the entries of the directory.
pub open spec fn list_start(directory: Seq<char>) -> StepView<ListingView, Seq<NoteView>> {
    StepView::Ask(
        ListingView {
            directory,
            pending: Seq::empty(),
            notes: Seq::empty(),
            stage: ListingStageView::Opening,
        },
        RequestView::ReadDirectory { path: directory },
    )
}

/// How a listing goes on with a step of the making of the note of the
/// entry that it has reached: it waits with the making, takes the note and
/// turns to the entries left, or ends with the error.
pub open spec fn list_with_load(
    state: ListingView,
    step: StepView<LoadingView, NoteView>,
) -> StepView<ListingView, Seq<NoteView>> {
    match step {
        StepView::Ask(load, request) => StepView::Ask(
            ListingView { stage: ListingStageView::Loading { load }, ..state },
            request,
        ),
        StepView::Done(Ok(note)) => list_advance(
            state.directory,
            state.pending,
            state.notes.push(note),
        ),
        StepView::Done(Err(error)) => StepView::Done(Err(error)),
    }
}

/// How a listing goes on after an answer. A directory that cannot be read
/// ends the listing with the error that stands for the failure. An entry that
/// is a regular file with the extension of markdown is made into a note, and
/// the listing ends with the first error of that; any other entry is passed
/// over.
pub open spec fn list_resume(state: ListingView, response: ResponseView) -> StepView<
    ListingView,
    Seq<NoteView>,
> {
    match state.stage {
        ListingStageView::Opening => match response {
            ResponseView::DirectoryRead(Ok(entries)) => list_advance(
                state.directory,
                entries,
                Seq::empty(),
            ),
            ResponseView::DirectoryRead(Err(failure)) => StepView::Done(
                Err(mapped_io_error(failure, state.directory)),
            ),
            _ => StepView::Done(Err(unexpected_response())),
        },
        ListingStageView::Probing { path } => match response {
            ResponseView::Probed(kind) => if kind == PathKind::File && is_markdown_path(path) {
                list_with_load(state, load_start(path))
            } else {
                list_advance(state.directory, state.pending, state.notes)
            },
            _ => StepView::Done(Err(unexpected_response())),
        },
        ListingStageView::Loading { load } => list_with_load(state, load_resume(load, response)),
    }
}

impl Listing {
    /// The position of the listing lies within its entries.
    #[verifier::type_invariant]
    spec fn well_formed(self) -> bool {
        self.position <= self.entries.len()
    }

    /// Begins the listing of the notes of `directory`.
    pub fn open(directory: &str) -> (step: Step<Listing, Vec<Note>>)
        ensures
            step@ == list_start(directory@),
    {
        let state = Listing {
            directory: directory.to_owned(),
            entries: Vec::new(),
            position: 0,
            notes: Vec::new(),
            stage: ListingStage::Opening,
        };
        assert(state@.pending =~= Seq::empty());
        assert(state@.notes =~= Seq::empty());
        Step::Ask(state, Request::ReadDirectory { path: directory.to_owned() })
    }

    /// Turns to the entries from `position` on.
    fn advance(
        directory: String,
        entries: Vec<Result<String, IoError>>,
        position: usize,
        notes: Vec<Note>,
    ) -> (step: Step<Listing, Vec<Note>>)
        requires
            position <= entries.len(),
        ensures
            step@ == list_advance(
                directory@,
                entry_views(entries@).skip(position as int),
                notes.deep_view(),
            ),
    {
        let ghost pending = entry_views(entries@).skip(position as int);
        if position >= entries.len() {
            if notes.len() == 0 {
                Step::Done(Err(MemoriaError::EmptyNotesDirectory { path: directory }))
            } else {
                Step::Done(Ok(notes))
            }
        } else {
            assert(pending.drop_first() =~= entry_views(entries@).skip(position + 1));
            let reached: Result<String, IoError> = match &entries[position] {
                Ok(path) => Ok(path.clone()),
                Err(failure) => Err(failure.clone()),
            };
            match reached {
                Err(failure) => Step::Done(Err(MemoriaError::from(failure))),
                Ok(path) => {
                    let target = path.clone();
                    Step::Ask(
                        Listing {
                            directory,
                            entries,
                            position: position + 1,
                            notes,
                            stage: ListingStage::Probing { path },
                        },
                        Request::Probe { path: target },
                    )
                },
            }
        }
    }

    /// Goes on with the listing after an answer of the file system.
    pub fn resume(self, response: Response) -> (step: Step<Listing, Vec<Note>>)
        ensures
            step@ == list_resume(self@, response@),
    {
        proof {
            use_type_invariant(&self);
        }
        let Listing { directory, entries, position, notes, stage } = self;
        match stage {
            ListingStage::Opening => match response {
                Response::DirectoryRead(Ok(found)) => {
                    assert(entry_views(found@).skip(0) =~= entry_views(found@));
                    let none: Vec<Note> = Vec::new();
                    assert(none.deep_view() =~= Seq::empty());
                    Listing::advance(directory, found, 0, none)
                },
                Response::DirectoryRead(Err(failure)) => Step::Done(
                    Err(map_io_error_with_context(failure, directory.as_str())),
                ),
                _ => Step::Done(Err(unexpected())),
            },
            ListingStage::Probing { path } => match response {
                Response::Probed(kind) => {
                    if kind == PathKind::File && is_markdown_file(path.as_str()) {
                        let step = Note::from_path(path.as_str());
                        Listing::with_load(directory, entries, position, notes, step)
                    } else {
                        Listing::advance(directory, entries, position, notes)
                    }
                },
                _ => Step::Done(Err(unexpected())),
            },
            ListingStage::Loading { load } => {
                let step = load.resume(response);
                Listing::with_load(directory, entries, position, notes, step)
            },
        }
    }

    /// Goes on with a step of the making of the note of the entry before
    /// `position`.
    fn with_load(
        directory: String,
        entries: Vec<Result<String, IoError>>,
        position: usize,
        notes: Vec<Note>,
        step: Step<Loading, Note>,
    ) -> (next: Step<Listing, Vec<Note>>)
        requires
            position <= entries.len(),
        ensures
            forall|stage: ListingStageView|
                next@ == list_with_load(
                    ListingView {
                        directory: directory@,
                        pending: entry_views(entries@).skip(position as int),
                        notes: notes.deep_view(),
                        stage,
                    },
                    step@,
                ),
    {
        match step {
            Step::Ask(load, request) => Step::Ask(
                Listing {
                    directory,
                    entries,
                    position,
                    notes,
                    stage: ListingStage::Loading { load },
                },
                request,
            ),
            Step::Done(Ok(note)) => Listing::take(directory, entries, position, notes, note),
            Step::Done(Err(error)) => Step::Done(Err(error)),
        }
    }

    /// Adds `note` to the notes found and turns to the entries from
    /// `position` on.
    fn take(
        directory: String,
        entries: Vec<Result<String, IoError>>,
        position: usize,
        notes: Vec<Note>,
        note: Note,
    ) -> (step: Step<Listing, Vec<Note>>)
        requires
            position <= entries.len(),
        ensures
            step@ == list_advance(
                directory@,
                entry_views(entries@).skip(position as int),
                notes.deep_view().push(note@),
            ),
    {
        let mut notes = notes;
        let ghost before = notes.deep_view();
        notes.push(note);
        assert(notes.deep_view() =~= before.push(note@));
        Listing::advance(directory, entries, position, notes)
    }
}

} // verus!
