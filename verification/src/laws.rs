//! What the operations of the notes manager come to when they are run
//! against the file system: their results, the calls that they make, and
//! what holds of one operation after another.

use crate::cli::{init_resume, init_start, init_target, InitializationView};
use crate::config::default_config;
use crate::content::{first_line, lemma_title_round_trip, note_text};
use crate::creation::{
    create_resume, create_start, note_file_name, note_path, validated, CreationStageView,
    CreationView,
};
use crate::errors::{mapped_io_error, names_markdown, IoErrorKind, IoErrorView, MemoriaErrorView};
use crate::filename::{
    file_name, free_of_reserved, is_markdown_path, joined, lemma_last_index_of, names_start,
    replaced, sanitized,
};
use crate::filesystem::{PathKind, RequestView, ResponseView, StepView};
use crate::listing::{list_advance, list_resume, list_start, listed, ListingStageView, ListingView};
use crate::notes::{load_resume, load_start, not_a_file, note_from_text, LoadingView, NoteView};
use crate::store::{
    config_ensure_start, config_load_resume, config_load_start, config_save_resume,
    ConfigLoadingView, ConfigSavingView, LoadedView, SavingStage,
};
use crate::text::{
    lemma_leading_run, lemma_trailing_run, lowercase_of, trim_start, trimmed, whitespace,
};
use crate::utils::is_timestamp;
use crate::world::{is_read, lemma_run_after_call, run, runs_to, Run, World};
use vstd::prelude::*;

verus! {

/// The steps of the making of a note from a path, as a value.
pub open spec fn loading() -> spec_fn(LoadingView, ResponseView) -> StepView<
    LoadingView,
    NoteView,
> {
    |state: LoadingView, response: ResponseView| load_resume(state, response)
}

/// The note that the file at `path` gives in `world`. It fails with
/// `FileNotFound` where the path does not exist and with `InvalidFormat`
/// where it holds no regular file or a file without a heading line; a file
/// that cannot be read gives the error that stands for the failure.
pub open spec fn loaded(world: World, path: Seq<char>) -> Result<NoteView, MemoriaErrorView> {
    match (world.kind)(path) {
        PathKind::Missing => Err(MemoriaErrorView::FileNotFound { path }),
        PathKind::File => note_from_text(path, (world.text)(path)),
        _ => Err(not_a_file(path)),
    }
}

/// The calls that the making of a note from `path` asks for in `world`:
/// what stands at the path and, for a regular file, its text.
pub open spec fn load_requests(world: World, path: Seq<char>) -> Seq<RequestView> {
    if (world.kind)(path) == PathKind::File {
        seq![RequestView::Probe { path }, RequestView::ReadFile { path }]
    } else {
        seq![RequestView::Probe { path }]
    }
}

/// The making of a note from `path` runs to the note that the file gives,
/// by the calls of `load_requests`.
pub proof fn lemma_load_runs(world: World, next: World, path: Seq<char>)
    ensures
        runs_to(
            loading(),
            world,
            next,
            load_start(path),
            Run { outcome: loaded(world, path), requests: load_requests(world, path) },
        ),
{
    let probe = RequestView::Probe { path };
    let read = RequestView::ReadFile { path };
    let probing = LoadingView::Probing { path };
    let reading = LoadingView::Reading { path };
    if (world.kind)(path) == PathKind::File {
        let last = loading()(reading, world.answer(read));
        assert(run(loading(), world, next, last, 0) == Some(
            Run { outcome: loaded(world, path), requests: Seq::empty() },
        ));
        lemma_run_after_call(
            loading(),
            world,
            next,
            reading,
            read,
            Run { outcome: loaded(world, path), requests: Seq::empty() },
        );
        lemma_run_after_call(
            loading(),
            world,
            next,
            probing,
            probe,
            Run { outcome: loaded(world, path), requests: seq![read] },
        );
        assert(seq![probe] + seq![read] =~= load_requests(world, path));
    } else {
        let last = loading()(probing, world.answer(probe));
        assert(run(loading(), world, next, last, 0) == Some(
            Run { outcome: loaded(world, path), requests: Seq::empty() },
        ));
        lemma_run_after_call(
            loading(),
            world,
            next,
            probing,
            probe,
            Run { outcome: loaded(world, path), requests: Seq::empty() },
        );
    }
}

/// The steps of a listing, as a value.
pub open spec fn listing() -> spec_fn(ListingView, ResponseView) -> StepView<
    ListingView,
    Seq<NoteView>,
> {
    |state: ListingView, response: ResponseView| list_resume(state, response)
}

/// Whether a listing takes the entry at `path` for a note: it does where
/// the path holds a regular file and has the extension of markdown.
pub open spec fn is_note_entry(world: World, path: Seq<char>) -> bool {
    (world.kind)(path) == PathKind::File && is_markdown_path(path)
}

/// The result of a listing that has found `notes` and has the entries
/// `pending` before it: the notes of the entries that it takes for notes are
/// added in the order of the entries, and the first entry that could not be
/// read, or whose note cannot be made, ends the listing with its error.
pub open spec fn collected(
    world: World,
    directory: Seq<char>,
    pending: Seq<Result<Seq<char>, IoErrorView>>,
    notes: Seq<NoteView>,
) -> Result<Seq<NoteView>, MemoriaErrorView>
    decreases pending.len(),
{
    if pending.len() == 0 {
        listed(directory, notes)
    } else {
        match pending.first() {
            Err(failure) => Err(MemoriaErrorView::Io(failure)),
            Ok(path) => if is_note_entry(world, path) {
                match loaded(world, path) {
                    Ok(note) => collected(world, directory, pending.drop_first(), notes.push(note)),
                    Err(error) => Err(error),
                }
            } else {
                collected(world, directory, pending.drop_first(), notes)
            },
        }
    }
}

/// The calls that a listing asks for on the entries `pending`: what stands
/// at the path of each entry and, for the entries that it takes for notes,
/// the calls of the making of the note, up to the entry that ends the
/// listing.
pub open spec fn collect_requests(
    world: World,
    pending: Seq<Result<Seq<char>, IoErrorView>>,
) -> Seq<RequestView>
    decreases pending.len(),
{
    if pending.len() == 0 {
        Seq::empty()
    } else {
        match pending.first() {
            Err(_) => Seq::empty(),
            Ok(path) => {
                let probe = seq![RequestView::Probe { path }];
                if is_note_entry(world, path) {
                    if loaded(world, path) is Ok {
                        probe + load_requests(world, path) + collect_requests(
                            world,
                            pending.drop_first(),
                        )
                    } else {
                        probe + load_requests(world, path)
                    }
                } else {
                    probe + collect_requests(world, pending.drop_first())
                }
            },
        }
    }
}

/// The result of listing the notes of `directory` in `world`. A directory
/// that cannot be read gives the error that stands for the failure; one
/// without a note gives `EmptyNotesDirectory`.
pub open spec fn list_outcome(world: World, directory: Seq<char>) -> Result<
    Seq<NoteView>,
    MemoriaErrorView,
> {
    match (world.entries)(directory) {
        Ok(entries) => collected(world, directory, entries, Seq::empty()),
        Err(failure) => Err(mapped_io_error(failure, directory)),
    }
}

/// The calls that listing the notes of `directory` asks for in `world`.
pub open spec fn list_requests(world: World, directory: Seq<char>) -> Seq<RequestView> {
    let open = seq![RequestView::ReadDirectory { path: directory }];
    match (world.entries)(directory) {
        Ok(entries) => open + collect_requests(world, entries),
        Err(_) => open,
    }
}

/// A listing that turns to the entries `pending` runs to the result of
/// `collected`, by the calls of `collect_requests`.
pub proof fn lemma_collect_runs(
    world: World,
    next: World,
    directory: Seq<char>,
    pending: Seq<Result<Seq<char>, IoErrorView>>,
    notes: Seq<NoteView>,
)
    ensures
        runs_to(
            listing(),
            world,
            next,
            list_advance(directory, pending, notes),
            Run {
                outcome: collected(world, directory, pending, notes),
                requests: collect_requests(world, pending),
            },
        ),
    decreases pending.len(),
{
    let start = list_advance(directory, pending, notes);
    let end = Run {
        outcome: collected(world, directory, pending, notes),
        requests: collect_requests(world, pending),
    };
    if pending.len() > 0 {
        match pending.first() {
            Err(failure) => {
                assert(run(listing(), world, next, start, 0) == Some(end));
            },
            Ok(path) => {
                let rest = pending.drop_first();
                let probe = RequestView::Probe { path };
                let read = RequestView::ReadFile { path };
                let probing = ListingView {
                    directory,
                    pending: rest,
                    notes,
                    stage: ListingStageView::Probing { path },
                };
                if is_note_entry(world, path) {
                    let checking = ListingView {
                        stage: ListingStageView::Loading { load: LoadingView::Probing { path } },
                        ..probing
                    };
                    let reading = ListingView {
                        stage: ListingStageView::Loading { load: LoadingView::Reading { path } },
                        ..probing
                    };
                    let last = listing()(reading, world.answer(read));
                    let tail = match loaded(world, path) {
                        Ok(note) => {
                            lemma_collect_runs(world, next, directory, rest, notes.push(note));
                            Run {
                                outcome: collected(world, directory, rest, notes.push(note)),
                                requests: collect_requests(world, rest),
                            }
                        },
                        Err(error) => {
                            let failed = Run::<Seq<NoteView>> {
                                outcome: Err(error),
                                requests: Seq::empty(),
                            };
                            assert(run(listing(), world, next, last, 0) == Some(failed));
                            failed
                        },
                    };
                    lemma_run_after_call(listing(), world, next, reading, read, tail);
                    let second = Run {
                        outcome: tail.outcome,
                        requests: seq![read] + tail.requests,
                    };
                    lemma_run_after_call(listing(), world, next, checking, probe, second);
                    let first = Run {
                        outcome: tail.outcome,
                        requests: seq![probe] + second.requests,
                    };
                    lemma_run_after_call(listing(), world, next, probing, probe, first);
                    assert(seq![probe] + first.requests =~= end.requests);
                } else {
                    lemma_collect_runs(world, next, directory, rest, notes);
                    let tail = Run {
                        outcome: collected(world, directory, rest, notes),
                        requests: collect_requests(world, rest),
                    };
                    lemma_run_after_call(listing(), world, next, probing, probe, tail);
                }
            },
        }
    }
}

/// Listing the notes of `directory` runs to the result of `list_outcome`,
/// by the calls of `list_requests`: all of them read, none writes.
pub proof fn lemma_list_runs(world: World, next: World, directory: Seq<char>)
    ensures
        runs_to(
            listing(),
            world,
            next,
            list_start(directory),
            Run {
                outcome: list_outcome(world, directory),
                requests: list_requests(world, directory),
            },
        ),
{
    let open = RequestView::ReadDirectory { path: directory };
    let opening = ListingView {
        directory,
        pending: Seq::empty(),
        notes: Seq::empty(),
        stage: ListingStageView::Opening,
    };
    let after = listing()(opening, world.answer(open));
    match (world.entries)(directory) {
        Ok(entries) => {
            lemma_collect_runs(world, next, directory, entries, Seq::empty());
            lemma_run_after_call(
                listing(),
                world,
                next,
                opening,
                open,
                Run {
                    outcome: collected(world, directory, entries, Seq::empty()),
                    requests: collect_requests(world, entries),
                },
            );
        },
        Err(failure) => {
            let end = Run {
                outcome: list_outcome(world, directory),
                requests: Seq::<RequestView>::empty(),
            };
            assert(run(listing(), world, next, after, 0) == Some(end));
            lemma_run_after_call(listing(), world, next, opening, open, end);
        },
    }
}

/// A listing passes over an entry that is not a regular file with the
/// extension of markdown, such as a directory or a file of another kind: the
/// result is that of the listing without the entry.
pub proof fn lemma_listing_passes_over(
    world: World,
    directory: Seq<char>,
    pending: Seq<Result<Seq<char>, IoErrorView>>,
    notes: Seq<NoteView>,
    index: int,
)
    requires
        0 <= index < pending.len(),
        pending[index] matches Ok(path) && !is_note_entry(world, path),
    ensures
        collected(world, directory, pending, notes) == collected(
            world,
            directory,
            pending.remove(index),
            notes,
        ),
    decreases pending.len(),
{
    if index > 0 {
        let rest = pending.drop_first();
        assert(pending.remove(index).drop_first() =~= rest.remove(index - 1));
        if let Ok(path) = pending.first() {
            if !is_note_entry(world, path) {
                lemma_listing_passes_over(world, directory, rest, notes, index - 1);
            } else if let Ok(note) = loaded(world, path) {
                lemma_listing_passes_over(world, directory, rest, notes.push(note), index - 1);
            }
        }
    }
}

/// The steps of the making of a new note, as a value.
pub open spec fn creating() -> spec_fn(CreationView, ResponseView) -> StepView<
    CreationView,
    NoteView,
> {
    |state: CreationView, response: ResponseView| create_resume(state, response)
}

/// Whether the making of the note with the given title gets as far as
/// writing: the directory is one, and nothing stands at the path of the note.
pub open spec fn create_writes(world: World, directory: Seq<char>, title: Seq<char>) -> bool {
    &&& (world.kind)(directory) == PathKind::Directory
    &&& (world.kind)(note_path(directory, title)) == PathKind::Missing
}

/// The result of making the note with the given title in `directory`,
/// where `before` is what the file system holds at first and `after` what it
/// holds once the note is written. The making fails with `DirectoryNotFound`
/// or `InvalidFormat` where the directory is none, with `NoteExists` where
/// something stands at the path of the note, and with the error that stands
/// for the failure where the note cannot be written; else it gives the note
/// that the written file gives.
pub open spec fn created(
    before: World,
    after: World,
    directory: Seq<char>,
    title: Seq<char>,
) -> Result<NoteView, MemoriaErrorView> {
    let path = note_path(directory, title);
    match validated(directory, (before.kind)(directory)) {
        Err(error) => Err(error),
        Ok(_) => if (before.kind)(path) != PathKind::Missing {
            Err(MemoriaErrorView::NoteExists { path })
        } else {
            match (before.refusal)(path) {
                Some(failure) => Err(mapped_io_error(failure, path)),
                None => loaded(after, path),
            }
        },
    }
}

/// The calls that the making of the note with the given title asks for:
/// what stands at the path of the directory; then, where that is a directory,
/// what stands at the path of the note; then, where that is nothing, the
/// writing of the content; and then, where that succeeds, the calls of the
/// making of the note from the file.
pub open spec fn create_requests(
    before: World,
    after: World,
    directory: Seq<char>,
    title: Seq<char>,
    created_at: Seq<char>,
) -> Seq<RequestView> {
    let path = note_path(directory, title);
    let check = seq![RequestView::Probe { path: directory }];
    let target = seq![RequestView::Probe { path }];
    let write = seq![RequestView::WriteFile { path, content: note_text(created_at, title) }];
    if (before.kind)(directory) != PathKind::Directory {
        check
    } else if (before.kind)(path) != PathKind::Missing {
        check + target
    } else if (before.refusal)(path) is Some {
        check + target + write
    } else {
        check + target + write + load_requests(after, path)
    }
}

/// The making of a new note runs to the result of `created`, by the calls
/// of `create_requests`.
pub proof fn lemma_create_runs(
    before: World,
    after: World,
    directory: Seq<char>,
    title: Seq<char>,
    created_at: Seq<char>,
)
    ensures
        runs_to(
            creating(),
            before,
            after,
            create_start(directory, title, created_at),
            Run {
                outcome: created(before, after, directory, title),
                requests: create_requests(before, after, directory, title, created_at),
            },
        ),
{
    let path = note_path(directory, title);
    let content = note_text(created_at, title);
    let check = RequestView::Probe { path: directory };
    let target = RequestView::Probe { path };
    let write = RequestView::WriteFile { path, content };
    let read = RequestView::ReadFile { path };
    let none = Seq::<RequestView>::empty();
    let outcome = created(before, after, directory, title);
    let checking = CreationView {
        directory,
        path,
        content,
        stage: CreationStageView::CheckingDirectory,
    };
    let aiming = CreationView { stage: CreationStageView::CheckingTarget, ..checking };
    let writing = CreationView { stage: CreationStageView::Writing, ..checking };
    let probing = CreationView {
        stage: CreationStageView::Loading { load: LoadingView::Probing { path } },
        ..checking
    };
    let reading = CreationView {
        stage: CreationStageView::Loading { load: LoadingView::Reading { path } },
        ..checking
    };
    let done = Run::<NoteView> { outcome, requests: none };
    if (before.kind)(directory) != PathKind::Directory {
        assert(run(creating(), before, after, creating()(checking, before.answer(check)), 0)
            == Some(done));
        lemma_run_after_call(creating(), before, after, checking, check, done);
    } else if (before.kind)(path) != PathKind::Missing {
        assert(run(creating(), before, after, creating()(aiming, before.answer(target)), 0)
            == Some(done));
        lemma_run_after_call(creating(), before, after, aiming, target, done);
        let second = Run::<NoteView> { outcome, requests: seq![target] + none };
        lemma_run_after_call(creating(), before, after, checking, check, second);
    } else if (before.refusal)(path) is Some {
        assert(run(creating(), before, after, creating()(writing, before.answer(write)), 0)
            == Some(done));
        lemma_run_after_call(creating(), before, after, writing, write, done);
        let third = Run::<NoteView> { outcome, requests: seq![write] + none };
        lemma_run_after_call(creating(), before, after, aiming, target, third);
        let second = Run::<NoteView> { outcome, requests: seq![target] + third.requests };
        lemma_run_after_call(creating(), before, after, checking, check, second);
        assert(seq![check] + second.requests =~= seq![check] + seq![target] + seq![write]);
    } else {
        let fourth = if (after.kind)(path) == PathKind::File {
            assert(run(creating(), after, after, creating()(reading, after.answer(read)), 0)
                == Some(done));
            lemma_run_after_call(creating(), after, after, reading, read, done);
            let fifth = Run::<NoteView> { outcome, requests: seq![read] + none };
            lemma_run_after_call(creating(), after, after, probing, target, fifth);
            Run::<NoteView> { outcome, requests: seq![target] + fifth.requests }
        } else {
            assert(run(creating(), after, after, creating()(probing, after.answer(target)), 0)
                == Some(done));
            lemma_run_after_call(creating(), after, after, probing, target, done);
            Run::<NoteView> { outcome, requests: seq![target] + none }
        };
        lemma_run_after_call(creating(), before, after, writing, write, fourth);
        let third = Run::<NoteView> { outcome, requests: seq![write] + fourth.requests };
        lemma_run_after_call(creating(), before, after, aiming, target, third);
        let second = Run::<NoteView> { outcome, requests: seq![target] + third.requests };
        lemma_run_after_call(creating(), before, after, checking, check, second);
        assert(seq![check] + second.requests =~= seq![check] + seq![target] + seq![write]
            + load_requests(after, path));
    }
}

/// The fragment of a file name that stands for a title holds no reserved
/// character, whatever the title.
pub proof fn lemma_sanitized_is_free(title: Seq<char>)
    ensures
        free_of_reserved(sanitized(title)),
{
    let clean = replaced(lowercase_of(replaced(title)));
    lemma_leading_run(clean, whitespace());
    lemma_trailing_run(trim_start(clean), whitespace());
}

/// Where the directory is one, nothing stands at the path of the note and
/// the note can be written, the making of a note succeeds: it gives the note
/// at that path whose title is the first line of the title that it was made
/// with, without the whitespace at both ends. A title of one line that
/// neither starts nor ends with whitespace comes back as it was. The note
/// that is made from the path afterwards is the same.
pub proof fn lemma_created_note(
    before: World,
    after: World,
    directory: Seq<char>,
    title: Seq<char>,
    created_at: Seq<char>,
)
    requires
        is_timestamp(created_at),
        create_writes(before, directory, title),
        (before.refusal)(note_path(directory, title)) is None,
        before.written(after, note_path(directory, title), note_text(created_at, title)),
    ensures
        created(before, after, directory, title) == Ok::<NoteView, MemoriaErrorView>(
            NoteView { path: note_path(directory, title), title: trimmed(first_line(title)) },
        ),
        first_line(title) == title && trimmed(title) == title ==> created(
            before,
            after,
            directory,
            title,
        ) == Ok::<NoteView, MemoriaErrorView>(
            NoteView { path: note_path(directory, title), title },
        ),
        runs_to(
            creating(),
            before,
            after,
            create_start(directory, title, created_at),
            Run {
                outcome: Ok(
                    NoteView {
                        path: note_path(directory, title),
                        title: trimmed(first_line(title)),
                    },
                ),
                requests: create_requests(before, after, directory, title, created_at),
            },
        ),
        loaded(after, note_path(directory, title)) == created(before, after, directory, title),
{
    lemma_title_round_trip(created_at, title);
    lemma_create_runs(before, after, directory, title, created_at);
}

/// A note is made once: after the making of a note with some title has
/// written its file, a second making with the same title fails with
/// `NoteExists` on the path of the note, and asks only what stands at the
/// paths of the directory and of the note: the file is not written again.
pub proof fn lemma_second_creation_fails(
    before: World,
    after: World,
    later: World,
    directory: Seq<char>,
    title: Seq<char>,
    created_at: Seq<char>,
    again_at: Seq<char>,
)
    requires
        create_writes(before, directory, title),
        (before.refusal)(note_path(directory, title)) is None,
        before.written(after, note_path(directory, title), note_text(created_at, title)),
    ensures
        created(after, later, directory, title) == Err::<NoteView, MemoriaErrorView>(
            MemoriaErrorView::NoteExists { path: note_path(directory, title) },
        ),
        create_requests(after, later, directory, title, again_at) == seq![
            RequestView::Probe { path: directory },
            RequestView::Probe { path: note_path(directory, title) },
        ],
        runs_to(
            creating(),
            after,
            later,
            create_start(directory, title, again_at),
            Run {
                outcome: Err(MemoriaErrorView::NoteExists { path: note_path(directory, title) }),
                requests: seq![
                    RequestView::Probe { path: directory },
                    RequestView::Probe { path: note_path(directory, title) },
                ],
            },
        ),
{
    lemma_create_runs(after, later, directory, title, again_at);
}

/// The calls of a listing on its entries read: none writes.
pub proof fn lemma_collecting_only_reads(
    world: World,
    pending: Seq<Result<Seq<char>, IoErrorView>>,
)
    ensures
        forall|i: int|
            0 <= i < collect_requests(world, pending).len() ==> is_read(
                #[trigger] collect_requests(world, pending)[i],
            ),
    decreases pending.len(),
{
    if pending.len() > 0 {
        let rest = collect_requests(world, pending.drop_first());
        lemma_collecting_only_reads(world, pending.drop_first());
        if let Ok(path) = pending.first() {
            let all = collect_requests(world, pending);
            let load = load_requests(world, path);
            assert forall|i: int| 0 <= i < all.len() implies is_read(#[trigger] all[i]) by {
                if !is_note_entry(world, path) {
                    if i >= 1 {
                        assert(all[i] == rest[i - 1]);
                    }
                } else if i >= 1 + load.len() {
                    assert(all[i] == rest[i - 1 - load.len()]);
                } else if i >= 1 {
                    assert(all[i] == load[i - 1]);
                }
            }
        }
    }
}

/// The calls of a listing read: listing changes nothing.
pub proof fn lemma_listing_only_reads(world: World, directory: Seq<char>)
    ensures
        forall|i: int|
            0 <= i < list_requests(world, directory).len() ==> is_read(
                #[trigger] list_requests(world, directory)[i],
            ),
{
    if let Ok(entries) = (world.entries)(directory) {
        lemma_collecting_only_reads(world, entries);
    }
}

/// The listing of a directory without entries fails with
/// `EmptyNotesDirectory`.
pub proof fn lemma_empty_directory(world: World, directory: Seq<char>)
    requires
        (world.entries)(directory) == Ok::<
            Seq<Result<Seq<char>, IoErrorView>>,
            IoErrorView,
        >(Seq::empty()),
    ensures
        list_outcome(world, directory) == Err::<Seq<NoteView>, MemoriaErrorView>(
            MemoriaErrorView::EmptyNotesDirectory { path: directory },
        ),
{
}

/// The listing of a directory that does not exist fails with
/// `DirectoryNotFound`, unless the path of the directory looks like that of a
/// markdown file: a missing path of that name is taken for a missing file.
pub proof fn lemma_missing_directory(world: World, directory: Seq<char>)
    requires
        (world.entries)(directory) matches Err(failure) && failure.kind == IoErrorKind::NotFound,
        !names_markdown(directory),
    ensures
        list_outcome(world, directory) == Err::<Seq<NoteView>, MemoriaErrorView>(
            MemoriaErrorView::DirectoryNotFound { path: directory },
        ),
{
}

/// What the file system holds where the directory at `directory` has the
/// entries `entries` and all else is as in `world`.
pub open spec fn with_entries(
    world: World,
    directory: Seq<char>,
    entries: Seq<Result<Seq<char>, IoErrorView>>,
) -> World {
    World {
        entries: |path: Seq<char>|
            if path == directory {
                Ok(entries)
            } else {
                (world.entries)(path)
            },
        ..world
    }
}

/// What a listing makes of its entries depends on what stands at their
/// paths and on what they read as, and on nothing else.
pub proof fn lemma_collected_alike(
    world: World,
    other: World,
    directory: Seq<char>,
    pending: Seq<Result<Seq<char>, IoErrorView>>,
    notes: Seq<NoteView>,
)
    requires
        other.kind == world.kind,
        other.text == world.text,
    ensures
        collected(other, directory, pending, notes) == collected(
            world,
            directory,
            pending,
            notes,
        ),
    decreases pending.len(),
{
    if pending.len() > 0 {
        if let Ok(path) = pending.first() {
            if is_note_entry(world, path) {
                if let Ok(note) = loaded(world, path) {
                    lemma_collected_alike(
                        world,
                        other,
                        directory,
                        pending.drop_first(),
                        notes.push(note),
                    );
                }
            } else {
                lemma_collected_alike(world, other, directory, pending.drop_first(), notes);
            }
        }
    }
}

/// Listing ignores what is no note: a directory that holds, besides its
/// other entries, a subdirectory or a file without the extension of markdown
/// lists as the directory without that entry does.
pub proof fn lemma_listing_ignores(
    world: World,
    directory: Seq<char>,
    entries: Seq<Result<Seq<char>, IoErrorView>>,
    index: int,
)
    requires
        (world.entries)(directory) == Ok::<Seq<Result<Seq<char>, IoErrorView>>, IoErrorView>(
            entries,
        ),
        0 <= index < entries.len(),
        entries[index] matches Ok(path) && !is_note_entry(world, path),
    ensures
        list_outcome(world, directory) == list_outcome(
            with_entries(world, directory, entries.remove(index)),
            directory,
        ),
{
    let bare = with_entries(world, directory, entries.remove(index));
    lemma_listing_passes_over(world, directory, entries, Seq::empty(), index);
    lemma_collected_alike(world, bare, directory, entries.remove(index), Seq::empty());
}

/// The name of the entry `name` of `directory` is `name`, where `name`
/// is a name: it is not empty, holds no `/`, and is neither `.` nor `..`.
/// The entry lies in the directory itself.
pub proof fn lemma_file_name_of_joined(directory: Seq<char>, name: Seq<char>)
    requires
        name.len() > 0,
        forall|i: int| 0 <= i < name.len() ==> #[trigger] name[i] != '/',
        name != seq!['.'],
        name != seq!['.', '.'],
    ensures
        file_name(joined(directory, name)) == Some(name),
{
    let path = joined(directory, name);
    let start = names_start(path);
    let slash: int = path.len() - name.len() - 1;
    assert(path.skip(slash + 1) =~= name);
    assert forall|i: int| slash < i < path.len() implies #[trigger] path[i] != '/' by {
        assert(path[i] == name[i - slash - 1]);
    }
    lemma_last_index_of(path, '/', slash);
    if path.len() <= start {
        assert(path[0] == name[0]);
        assert(name =~= seq!['.']);
    }
}

/// The file of a new note lies in the directory itself, whatever the
/// title: its name is the fragment that stands for the title, with `.md`
/// after it.
pub proof fn lemma_note_lies_in_directory(directory: Seq<char>, title: Seq<char>)
    ensures
        file_name(note_path(directory, title)) == Some(note_file_name(title)),
{
    lemma_sanitized_is_free(title);
    let stem = sanitized(title);
    let name = note_file_name(title);
    assert(name[stem.len() as int + 2] == 'd');
    assert forall|i: int| 0 <= i < name.len() implies #[trigger] name[i] != '/' by {
        if i < stem.len() {
            assert(name[i] == stem[i]);
        }
    }
    lemma_file_name_of_joined(directory, name);
}

/// The path of a new note leads to a markdown file, unless the fragment
/// that stands for the title is empty: the file is then named `.md`, which
/// is a name without an extension.
pub proof fn lemma_note_path_is_markdown(directory: Seq<char>, title: Seq<char>)
    ensures
        is_markdown_path(note_path(directory, title)) <==> sanitized(title).len() > 0,
{
    lemma_note_lies_in_directory(directory, title);
    let stem = sanitized(title);
    let name = note_file_name(title);
    assert(name[stem.len() as int] == '.');
    assert(name[stem.len() as int + 1] == 'm');
    assert(name[stem.len() as int + 2] == 'd');
    lemma_last_index_of(name, '.', stem.len() as int);
    if stem.len() > 0 {
        assert(name.skip(stem.len() as int + 1) =~= seq!['m', 'd']);
    }
}

/// A new note is listed: where the making of a note has written its file,
/// and the directory then holds that file alone, the listing of the directory
/// gives exactly the note that was made. The title must stand for a fragment
/// that is not empty.
pub proof fn lemma_created_note_is_listed(
    before: World,
    after: World,
    directory: Seq<char>,
    title: Seq<char>,
    created_at: Seq<char>,
)
    requires
        is_timestamp(created_at),
        sanitized(title).len() > 0,
        create_writes(before, directory, title),
        (before.refusal)(note_path(directory, title)) is None,
        before.written(after, note_path(directory, title), note_text(created_at, title)),
        (after.entries)(directory) == Ok::<Seq<Result<Seq<char>, IoErrorView>>, IoErrorView>(
            seq![Ok(note_path(directory, title))],
        ),
    ensures
        list_outcome(after, directory) == Ok::<Seq<NoteView>, MemoriaErrorView>(
            seq![
                NoteView { path: note_path(directory, title), title: trimmed(first_line(title)) },
            ],
        ),
{
    let path = note_path(directory, title);
    let note = NoteView { path, title: trimmed(first_line(title)) };
    let entries = seq![Ok::<Seq<char>, IoErrorView>(path)];
    lemma_title_round_trip(created_at, title);
    lemma_note_path_is_markdown(directory, title);
    assert(collected(after, directory, entries.drop_first(), seq![note]) == Ok::<
        Seq<NoteView>,
        MemoriaErrorView,
    >(seq![note]));
}

/// The steps of the setting up of a directory, as a value.
pub open spec fn initializing() -> spec_fn(InitializationView, ResponseView) -> StepView<
    InitializationView,
    Seq<char>,
> {
    |state: InitializationView, response: ResponseView| init_resume(state, response)
}

/// The result of setting up the directory at `target`: where something
/// stands at the path, the report of that; else the report that the directory
/// was made, or the error that stands for the failure to make it.
pub open spec fn initialized(world: World, target: Seq<char>) -> Result<
    Seq<char>,
    MemoriaErrorView,
> {
    if (world.kind)(target) != PathKind::Missing {
        Ok("Notes directory already exists: "@ + target)
    } else {
        match (world.refusal)(target) {
            Some(failure) => Err(mapped_io_error(failure, target)),
            None => Ok("Created notes directory: "@ + target),
        }
    }
}

/// The calls that setting up the directory at `target` asks for: what
/// stands at the path and, where that is nothing, the making of the
/// directory.
pub open spec fn init_requests(world: World, target: Seq<char>) -> Seq<RequestView> {
    if (world.kind)(target) != PathKind::Missing {
        seq![RequestView::Probe { path: target }]
    } else {
        seq![RequestView::Probe { path: target }, RequestView::CreateDirectory { path: target }]
    }
}

/// The setting up of a directory runs to the result of `initialized`, by
/// the calls of `init_requests`. A directory that stands is left as it is:
/// nothing is made, and the second of two settings up reports that the
/// directory exists.
pub proof fn lemma_init_runs(
    world: World,
    next: World,
    note_dir: Seq<char>,
    configured: Seq<char>,
)
    ensures
        runs_to(
            initializing(),
            world,
            next,
            init_start(note_dir, configured),
            Run {
                outcome: initialized(world, init_target(note_dir, configured)),
                requests: init_requests(world, init_target(note_dir, configured)),
            },
        ),
{
    let target = init_target(note_dir, configured);
    let probe = RequestView::Probe { path: target };
    let make = RequestView::CreateDirectory { path: target };
    let probing = InitializationView::Probing { target };
    let making = InitializationView::Creating { target };
    let none = Seq::<RequestView>::empty();
    let done = Run::<Seq<char>> { outcome: initialized(world, target), requests: none };
    if (world.kind)(target) != PathKind::Missing {
        assert(run(initializing(), world, next, initializing()(probing, world.answer(probe)), 0)
            == Some(done));
        lemma_run_after_call(initializing(), world, next, probing, probe, done);
    } else {
        let now = if world.changed_by(make) {
            next
        } else {
            world
        };
        assert(run(initializing(), now, next, initializing()(making, world.answer(make)), 0)
            == Some(done));
        lemma_run_after_call(initializing(), world, next, making, make, done);
        let second = Run::<Seq<char>> { outcome: done.outcome, requests: seq![make] + none };
        lemma_run_after_call(initializing(), world, next, probing, probe, second);
        assert(seq![probe] + second.requests =~= seq![probe, make]);
    }
}

/// The steps of the loading of the settings, as a value.
pub open spec fn loading_settings() -> spec_fn(ConfigLoadingView, ResponseView) -> StepView<
    ConfigLoadingView,
    LoadedView,
> {
    |state: ConfigLoadingView, response: ResponseView| config_load_resume(state, response)
}

/// The steps of the saving of the settings, as a value.
pub open spec fn saving_settings() -> spec_fn(ConfigSavingView, ResponseView) -> StepView<
    ConfigSavingView,
    bool,
> {
    |state: ConfigSavingView, response: ResponseView| config_save_resume(state, response)
}

/// What the loading of the settings from `path` gives in `world`: the
/// settings of a tool that has none of its own yet where nothing stands at the
/// path, else the text of the file or the error that stands for the failure
/// to read it.
pub open spec fn settings_loaded(world: World, path: Seq<char>) -> Result<
    LoadedView,
    MemoriaErrorView,
> {
    if (world.kind)(path) == PathKind::Missing {
        Ok(LoadedView::Defaults(default_config()))
    } else {
        match (world.text)(path) {
            Ok(text) => Ok(LoadedView::Text(text)),
            Err(failure) => Err(mapped_io_error(failure, path)),
        }
    }
}

/// The loading of the settings runs to the result of `settings_loaded`.
/// It asks what stands at the path and, where something does, for its text:
/// a file that is missing is not made.
pub proof fn lemma_config_load_runs(world: World, next: World, path: Seq<char>)
    ensures
        runs_to(
            loading_settings(),
            world,
            next,
            config_load_start(path),
            Run {
                outcome: settings_loaded(world, path),
                requests: if (world.kind)(path) == PathKind::Missing {
                    seq![RequestView::Probe { path }]
                } else {
                    seq![RequestView::Probe { path }, RequestView::ReadFile { path }]
                },
            },
        ),
{
    let probe = RequestView::Probe { path };
    let read = RequestView::ReadFile { path };
    let probing = ConfigLoadingView::Probing { path };
    let reading = ConfigLoadingView::Reading { path };
    let none = Seq::<RequestView>::empty();
    let done = Run::<LoadedView> { outcome: settings_loaded(world, path), requests: none };
    if (world.kind)(path) == PathKind::Missing {
        assert(run(
            loading_settings(),
            world,
            next,
            loading_settings()(probing, world.answer(probe)),
            0,
        ) == Some(done));
        lemma_run_after_call(loading_settings(), world, next, probing, probe, done);
    } else {
        assert(run(
            loading_settings(),
            world,
            next,
            loading_settings()(reading, world.answer(read)),
            0,
        ) == Some(done));
        lemma_run_after_call(loading_settings(), world, next, reading, read, done);
        let second = Run::<LoadedView> { outcome: done.outcome, requests: seq![read] + none };
        lemma_run_after_call(loading_settings(), world, next, probing, probe, second);
        assert(seq![probe] + second.requests =~= seq![probe, read]);
    }
}

/// A file of settings that exists is kept: the check that there is one
/// asks what stands at its path and ends there, with nothing written.
pub proof fn lemma_existing_config_is_kept(
    world: World,
    next: World,
    path: Seq<char>,
    defaults: Seq<char>,
)
    requires
        (world.kind)(path) != PathKind::Missing,
    ensures
        runs_to(
            saving_settings(),
            world,
            next,
            config_ensure_start(path, defaults),
            Run { outcome: Ok(false), requests: seq![RequestView::Probe { path }] },
        ),
{
    let probe = RequestView::Probe { path };
    let checking = ConfigSavingView { path, text: defaults, stage: SavingStage::Checking };
    let none = Seq::<RequestView>::empty();
    let done = Run::<bool> { outcome: Ok(false), requests: none };
    assert(run(
        saving_settings(),
        world,
        next,
        saving_settings()(checking, world.answer(probe)),
        0,
    ) == Some(done));
    lemma_run_after_call(saving_settings(), world, next, checking, probe, done);
}

} // verus!
