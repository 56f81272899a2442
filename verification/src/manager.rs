//! The manager of a directory of notes.

use crate::creation::{create_start, validate, validated, Creation, CreationView};
use crate::errors::{error_view, IoError, IoErrorKind, IoErrorView, MemoriaError, MemoriaErrorView};
use crate::filesystem::{PathKind, Step, StepView};
use crate::listing::{list_start, Listing};
use crate::notes::{Note, NoteView};
use crate::utils::{get_utc_time, is_timestamp};
use vstd::prelude::*;

verus! {

/// The error with which the making of a note ends where the clock reads
/// a time that no timestamp can hold.
pub open spec fn clock_out_of_range() -> MemoriaErrorView {
    MemoriaErrorView::Io(
        IoErrorView { kind: IoErrorKind::Other, message: "system clock out of range"@ },
    )
}

/// The manager of the notes of one directory. It holds the path of the
/// directory and nothing else: the directory is looked at anew by every
/// operation.
#[derive(Debug)]
pub struct NotesManager {
    notes_directory: String,
}

impl View for NotesManager {
    type V = Seq<char>;

    closed spec fn view(&self) -> Seq<char> {
        self.notes_directory@
    }
}

impl NotesManager {
    /// A manager of the notes of `notes_directory`. The path is taken as it
    /// is: nothing is asked of the file system.
    pub fn new(notes_directory: &str) -> (manager: Self)
        ensures
            manager@ == notes_directory@,
    {
        NotesManager { notes_directory: notes_directory.to_owned() }
    }

    /// Whether the directory can hold notes, from what stands at its path.
    pub fn validate_directory(&self, kind: PathKind) -> (outcome: Result<(), MemoriaError>)
        ensures
            error_view(outcome) == validated(self@, kind),
    {
        validate(self.notes_directory.as_str(), kind)
    }

    /// Begins the listing of the notes of the directory.
    pub fn list_notes(&self) -> (step: Step<Listing, Vec<Note>>)
        ensures
            step@ == list_start(self@),
    {
        Listing::open(self.notes_directory.as_str())
    }

    /// Begins the making of the note with the given title, with
    /// `created_at` as the time of its making.
    pub fn create_note_at(&self, title: &str, created_at: &str) -> (step: Step<Creation, Note>)
        ensures
            step@ == create_start(self@, title@, created_at@),
    {
        Creation::begin(self.notes_directory.as_str(), title, created_at)
    }

    /// Begins the making of the note with the given title, with the
    /// current time as the time of its making. Where the clock reads a time
    /// that no timestamp can hold, the making ends at once with an error.
    pub fn create_note(&self, title: &str) -> (step: Step<Creation, Note>)
        ensures
            step@ == StepView::<CreationView, NoteView>::Done(Err(clock_out_of_range())) || exists|
                now: Seq<char>,
            |
                is_timestamp(now) && step@ == create_start(self@, title@, now),
    {
        match get_utc_time() {
            Some(now) => self.create_note_at(title, now.as_str()),
            None => Step::Done(
                Err(
                    MemoriaError::Io(
                        IoError {
                            kind: IoErrorKind::Other,
                            message: "system clock out of range".to_owned(),
                        },
                    ),
                ),
            ),
        }
    }

    /// The path of the directory.
    pub fn notes_directory(&self) -> (path: &str)
        ensures
            path@ == self@,
    {
        self.notes_directory.as_str()
    }
}

} // verus!
