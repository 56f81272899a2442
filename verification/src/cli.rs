//! What the commands of the tool decide and report. The texts are made
//! here; printing them, and the calls on the file system, are the caller's.

use crate::config::{
    config_get, config_outcome, config_set, ConfigError, ConfigErrorView, ConfigView, MemoriaConfig,
};
use crate::errors::{map_io_error_with_context, mapped_io_error, MemoriaError, MemoriaErrorView};
use crate::filesystem::{
    unexpected, unexpected_response, PathKind, Request, RequestView, Response, ResponseView, Step,
    StepView,
};
use crate::notes::{Note, NoteView};
use crate::numbers::{decimal, decimal_text};
use crate::text::{join2, join3, same_text};
use vstd::prelude::*;
use vstd::string::StringExecFns;

verus! {

/// What the user is told of an error of the notes manager. A missing
/// directory comes with the hint to set the tool up first.
pub open spec fn error_message(error: MemoriaErrorView) -> Seq<char> {
    match error {
        MemoriaErrorView::DirectoryNotFound { path } => "Notes directory not found: "@ + path
            + "\nTry running 'memoria setup' first."@,
        MemoriaErrorView::PermissionDenied { path } => "Permission denied accessing: "@ + path,
        MemoriaErrorView::FileNotFound { path } => "File not found: "@ + path,
        MemoriaErrorView::InvalidFormat { message } => "Invalid format: "@ + message,
        MemoriaErrorView::Io(source) => "IO error: "@ + source.message,
        MemoriaErrorView::EmptyNotesDirectory { path } => "No notes found in directory: "@ + path,
        MemoriaErrorView::NoteExists { path } => "Note already exists: "@ + path,
        MemoriaErrorView::NoteNotFound { path } => "Note not found: "@ + path,
    }
}

/// What the user is told of an error of the notes manager.
pub fn handle_memoria_error(error: MemoriaError) -> (message: String)
    ensures
        message@ == error_message(error@),
{
    match error {
        MemoriaError::DirectoryNotFound { path } => join3(
            "Notes directory not found: ",
            path.as_str(),
            "\nTry running 'memoria setup' first.",
        ),
        MemoriaError::PermissionDenied { path } => join2(
            "Permission denied accessing: ",
            path.as_str(),
        ),
        MemoriaError::FileNotFound { path } => join2("File not found: ", path.as_str()),
        MemoriaError::InvalidFormat { message } => join2("Invalid format: ", message.as_str()),
        MemoriaError::Io(source) => join2("IO error: ", source.message.as_str()),
        MemoriaError::EmptyNotesDirectory { path } => join2(
            "No notes found in directory: ",
            path.as_str(),
        ),
        MemoriaError::NoteExists { path } => join2("Note already exists: ", path.as_str()),
        MemoriaError::NoteNotFound { path } => join2("Note not found: ", path.as_str()),
    }
}

/// The line of a listing that stands for a note: its title and, in
/// brackets, its path.
pub open spec fn note_line(note: NoteView) -> Seq<char> {
    "  "@ + note.title + " ("@ + note.path + ")"@
}

/// The lines of the notes of a listing, each after a line feed.
pub open spec fn note_lines(notes: Seq<NoteView>) -> Seq<char>
    decreases notes.len(),
{
    if notes.len() == 0 {
        Seq::empty()
    } else {
        note_lines(notes.drop_last()) + "\n"@ + note_line(notes.last())
    }
}

/// What the user is told of the notes found in `notes_dir`: how many
/// there are and a line for each, or that there is none.
pub open spec fn notes_report(notes: Seq<NoteView>, notes_dir: Seq<char>) -> Seq<char> {
    if notes.len() == 0 {
        "No notes found in the '"@ + notes_dir + "' directory."@
    } else {
        "Found "@ + decimal(notes.len()) + " note(s):"@ + note_lines(notes)
    }
}

/// What the user is told of a listing: the report of the notes found,
/// also where the listing ended for want of notes, or the message of the
/// error with which it ended.
pub open spec fn list_report(
    outcome: Result<Seq<NoteView>, MemoriaErrorView>,
    notes_dir: Seq<char>,
) -> Result<Seq<char>, Seq<char>> {
    match outcome {
        Ok(notes) => Ok(notes_report(notes, notes_dir)),
        Err(MemoriaErrorView::EmptyNotesDirectory { path }) => Ok(
            notes_report(Seq::empty(), notes_dir),
        ),
        Err(error) => Err(error_message(error)),
    }
}

/// A report or a message of failure, as sequences of characters.
pub open spec fn report_view(report: Result<String, String>) -> Result<Seq<char>, Seq<char>> {
    match report {
        Ok(text) => Ok(text@),
        Err(text) => Err(text@),
    }
}

/// The outcome of a listing as a mathematical value.
pub open spec fn notes_outcome(outcome: Result<Vec<Note>, MemoriaError>) -> Result<
    Seq<NoteView>,
    MemoriaErrorView,
> {
    match outcome {
        Ok(notes) => Ok(notes.deep_view()),
        Err(error) => Err(error@),
    }
}

/// The outcome of the making of a note as a mathematical value.
pub open spec fn note_outcome(outcome: Result<Note, MemoriaError>) -> Result<
    NoteView,
    MemoriaErrorView,
> {
    match outcome {
        Ok(note) => Ok(note@),
        Err(error) => Err(error@),
    }
}

/// The report of the notes found in `notes_dir`.
fn report_notes(notes: &Vec<Note>, notes_dir: &str) -> (report: String)
    ensures
        report@ == notes_report(notes.deep_view(), notes_dir@),
{
    if notes.len() == 0 {
        return join3("No notes found in the '", notes_dir, "' directory.");
    }
    let count = decimal_text(notes.len() as u64);
    let mut report = join3("Found ", count.as_str(), " note(s):");
    let ghost head = report@;
    let ghost all = notes.deep_view();
    let mut i: usize = 0;
    while i < notes.len()
        invariant
            i <= notes.len(),
            all == notes.deep_view(),
            report@ == head + note_lines(all.take(i as int)),
        decreases notes.len() - i,
    {
        let note = &notes[i];
        proof {
            let more = all.take(i + 1);
            assert(more.drop_last() =~= all.take(i as int));
        }
        report.append("\n");
        report.append("  ");
        report.append(note.title.as_str());
        report.append(" (");
        report.append(note.path.as_str());
        report.append(")");
        i += 1;
    }
    assert(all.take(notes.len() as int) =~= all);
    report
}

/// What the user is told of a listing of the notes of `notes_dir`.
pub fn handle_list(outcome: Result<Vec<Note>, MemoriaError>, notes_dir: &str) -> (report: Result<
    String,
    String,
>)
    ensures
        report_view(report) == list_report(notes_outcome(outcome), notes_dir@),
{
    match outcome {
        Ok(notes) => Ok(report_notes(&notes, notes_dir)),
        Err(MemoriaError::EmptyNotesDirectory { path }) => {
            let none: Vec<Note> = Vec::new();
            Ok(report_notes(&none, notes_dir))
        },
        Err(error) => Err(handle_memoria_error(error)),
    }
}

/// What the user is told of the making of the note with the given title:
/// the path of the note, or the message of the error after the title.
pub open spec fn create_report(
    outcome: Result<NoteView, MemoriaErrorView>,
    title: Seq<char>,
) -> Result<Seq<char>, Seq<char>> {
    match outcome {
        Ok(note) => Ok("Note created: "@ + note.path),
        Err(error) => Err("Failed to create note: "@ + title + ": "@ + error_message(error)),
    }
}

/// What the user is told of the making of the note with the given title.
pub fn handle_create(outcome: Result<Note, MemoriaError>, title: &str) -> (report: Result<
    String,
    String,
>)
    ensures
        report_view(report) == create_report(note_outcome(outcome), title@),
{
    match outcome {
        Ok(note) => Ok(join2("Note created: ", note.path.as_str())),
        Err(error) => {
            let cause = handle_memoria_error(error);
            let mut message = join3("Failed to create note: ", title, ": ");
            message.append(cause.as_str());
            Err(message)
        },
    }
}

/// The setting up of a directory for notes, waiting for an answer of the
/// file system.
#[derive(Debug)]
pub enum Initialization {
    /// Waiting to learn what stands at the path of the directory.
    Probing { target: String },
    /// Waiting for the making of the directory.
    Creating { target: String },
}

/// An `Initialization` with its path as a sequence of characters.
pub enum InitializationView {
    Probing { target: Seq<char> },
    Creating { target: Seq<char> },
}

impl View for Initialization {
    type V = InitializationView;

    open spec fn view(&self) -> InitializationView {
        match self {
            Initialization::Probing { target } => InitializationView::Probing { target: target@ },
            Initialization::Creating { target } => InitializationView::Creating {
                target: target@,
            },
        }
    }
}

/// The directory that is set up: the one named, or the directory of the
/// settings where the name is `default`.
pub open spec fn init_target(note_dir: Seq<char>, configured: Seq<char>) -> Seq<char> {
    if note_dir == "default"@ {
        configured
    } else {
        note_dir
    }
}

/// How the setting up of a directory begins: by asking what stands at its
/// path.
pub open spec fn init_start(note_dir: Seq<char>, configured: Seq<char>) -> StepView<
    InitializationView,
    Seq<char>,
> {
    let target = init_target(note_dir, configured);
    StepView::Ask(InitializationView::Probing { target }, RequestView::Probe { path: target })
}

/// How the setting up of a directory goes on after an answer. Where
/// nothing stands at the path, the directory is made; where something does,
/// that is reported and nothing is done.
pub open spec fn init_resume(state: InitializationView, response: ResponseView) -> StepView<
    InitializationView,
    Seq<char>,
> {
    match state {
        InitializationView::Probing { target } => match response {
            ResponseView::Probed(PathKind::Missing) => StepView::Ask(
                InitializationView::Creating { target },
                RequestView::CreateDirectory { path: target },
            ),
            ResponseView::Probed(_) => StepView::Done(
                Ok("Notes directory already exists: "@ + target),
            ),
            _ => StepView::Done(Err(unexpected_response())),
        },
        InitializationView::Creating { target } => match response {
            ResponseView::DirectoryCreated(Ok(_)) => StepView::Done(
                Ok("Created notes directory: "@ + target),
            ),
            ResponseView::DirectoryCreated(Err(failure)) => StepView::Done(
                Err(mapped_io_error(failure, target)),
            ),
            _ => StepView::Done(Err(unexpected_response())),
        },
    }
}

/// The directory that is set up for `note_dir`: the one named, or the
/// directory of the settings where the name is `default`.
pub fn init_directory(note_dir: &str, config: &MemoriaConfig) -> (target: String)
    ensures
        target@ == init_target(note_dir@, config@.notes_directory),
{
    if same_text(note_dir, "default") {
        config.notes.notes_directory.clone()
    } else {
        note_dir.to_owned()
    }
}

/// Begins the setting up of the directory `note_dir`, or of the directory
/// of the settings where `note_dir` is `default`.
pub fn handle_init(note_dir: &str, config: &MemoriaConfig) -> (step: Step<Initialization, String>)
    ensures
        step@ == init_start(note_dir@, config@.notes_directory),
{
    let target = init_directory(note_dir, config);
    let path = target.clone();
    Step::Ask(Initialization::Probing { target }, Request::Probe { path })
}

impl Initialization {
    /// Goes on with the setting up of the directory after an answer of the
    /// file system.
    pub fn resume(self, response: Response) -> (step: Step<Initialization, String>)
        ensures
            step@ == init_resume(self@, response@),
    {
        match self {
            Initialization::Probing { target } => match response {
                Response::Probed(PathKind::Missing) => {
                    let path = target.clone();
                    Step::Ask(
                        Initialization::Creating { target },
                        Request::CreateDirectory { path },
                    )
                },
                Response::Probed(_) => Step::Done(
                    Ok(join2("Notes directory already exists: ", target.as_str())),
                ),
                _ => Step::Done(Err(unexpected())),
            },
            Initialization::Creating { target } => match response {
                Response::DirectoryCreated(Ok(_)) => Step::Done(
                    Ok(join2("Created notes directory: ", target.as_str())),
                ),
                Response::DirectoryCreated(Err(failure)) => Step::Done(
                    Err(map_io_error_with_context(failure, target.as_str())),
                ),
                _ => Step::Done(Err(unexpected())),
            },
        }
    }
}

/// The command that opens the file of settings in the editor: the
/// editor, the path of the file, and the arguments of the editor.
pub open spec fn editor_command(config: ConfigView, config_path: Seq<char>) -> Seq<Seq<char>> {
    seq![config.default_editor, config_path] + config.editor_args
}

/// The command that opens the file of settings at `config_path` in the
/// editor.
pub fn handle_config_edit(config: &MemoriaConfig, config_path: &str) -> (command: Vec<String>)
    ensures
        command.deep_view() == editor_command(config@, config_path@),
{
    let mut command: Vec<String> = Vec::new();
    command.push(config.editor.default_editor.clone());
    command.push(config_path.to_owned());
    let ghost head = command.deep_view();
    let ghost args = config.editor.editor_args.deep_view();
    let mut i: usize = 0;
    while i < config.editor.editor_args.len()
        invariant
            i <= config.editor.editor_args.len(),
            args == config.editor.editor_args.deep_view(),
            command.deep_view() == head + args.take(i as int),
        decreases config.editor.editor_args.len() - i,
    {
        let ghost before = command.deep_view();
        command.push(config.editor.editor_args[i].clone());
        i += 1;
        assert(command.deep_view() =~= before.push(args[i - 1]));
    }
    command
}

/// What the user is told once a setting is written.
pub open spec fn updated_message(key: Seq<char>, value: Seq<char>) -> Seq<char> {
    "Configuration updated: "@ + key + " = "@ + value
}

/// Sets the setting that `key` names to the value that `value` stands for
/// and gives what the user is told of it. Nothing changes where the key
/// names no setting or the value does not fit it.
pub fn handle_config_set(config: &mut MemoriaConfig, key: &str, value: &str) -> (report: Result<
    String,
    ConfigError,
>)
    ensures
        match config_set(old(config)@, key@, value@) {
            Ok(changed) => final(config)@ == changed && config_outcome(report) == Ok::<
                Seq<char>,
                ConfigErrorView,
            >(updated_message(key@, value@)),
            Err(error) => final(config)@ == old(config)@ && config_outcome(report) == Err::<
                Seq<char>,
                ConfigErrorView,
            >(error),
        },
{
    match config.set(key, value) {
        Ok(_) => {
            let mut message = join3("Configuration updated: ", key, " = ");
            message.append(value);
            Ok(message)
        },
        Err(error) => Err(error),
    }
}

/// The value of the setting that `key` names, as the user is shown it.
pub fn handle_config_get(key: &str, config: &MemoriaConfig) -> (value: Result<String, ConfigError>)
    ensures
        config_outcome(value) == config_get(config@, key@),
{
    config.get(key)
}

} // verus!
