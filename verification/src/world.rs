//! A model of the file system, and the running of an operation of the
//! notes manager against it, from its first call to its result.

use crate::errors::{IoErrorView, MemoriaErrorView};
use crate::filesystem::{PathKind, RequestView, ResponseView, StepView};
use vstd::prelude::*;

verus! {

/// What the file system holds at one moment, as far as calls can tell.
pub struct World {
    /// What stands at each path.
    pub kind: spec_fn(Seq<char>) -> PathKind,
    /// What reading each path as a file gives.
    pub text: spec_fn(Seq<char>) -> Result<Seq<char>, IoErrorView>,
    /// What listing each path as a directory gives.
    pub entries: spec_fn(Seq<char>) -> Result<
        Seq<Result<Seq<char>, IoErrorView>>,
        IoErrorView,
    >,
    /// The failure with which writing a file or making a directory at
    /// each path ends, where it fails.
    pub refusal: spec_fn(Seq<char>) -> Option<IoErrorView>,
}

impl World {
    /// The answer of the file system to a call.
    pub open spec fn answer(self, request: RequestView) -> ResponseView {
        match request {
            RequestView::Probe { path } => ResponseView::Probed((self.kind)(path)),
            RequestView::ReadFile { path } => ResponseView::FileRead((self.text)(path)),
            RequestView::ReadDirectory { path } => ResponseView::DirectoryRead(
                (self.entries)(path),
            ),
            RequestView::WriteFile { path, content } => ResponseView::FileWritten(
                self.allowed(path),
            ),
            RequestView::CreateDirectory { path } => ResponseView::DirectoryCreated(
                self.allowed(path),
            ),
        }
    }

    /// The outcome of writing a file or making a directory at `path`.
    pub open spec fn allowed(self, path: Seq<char>) -> Result<(), IoErrorView> {
        match (self.refusal)(path) {
            Some(failure) => Err(failure),
            None => Ok(()),
        }
    }

    /// Whether a call changes what the file system holds: the writing of
    /// a file and the making of a directory do where they succeed.
    pub open spec fn changed_by(self, request: RequestView) -> bool {
        match request {
            RequestView::WriteFile { path, content } => (self.refusal)(path) is None,
            RequestView::CreateDirectory { path } => (self.refusal)(path) is None,
            _ => false,
        }
    }

    /// Whether `after` can be what the file system holds once `content` has
    /// been written to `path`: the path is a regular file that reads as
    /// written, and what stands at the other paths and what they read as is
    /// as before. In which listings the file shows is left open.
    pub open spec fn written(self, after: World, path: Seq<char>, content: Seq<char>) -> bool {
        &&& (after.kind)(path) == PathKind::File
        &&& (after.text)(path) == Ok::<Seq<char>, IoErrorView>(content)
        &&& forall|other: Seq<char>|
            other != path ==> #[trigger] (after.kind)(other) == (self.kind)(other)
        &&& forall|other: Seq<char>|
            other != path ==> #[trigger] (after.text)(other) == (self.text)(other)
    }
}

/// An operation run to its end: its result and the calls that it asked
/// for, in their order.
pub struct Run<T> {
    pub outcome: Result<T, MemoriaErrorView>,
    pub requests: Seq<RequestView>,
}

/// Runs an operation from `step` on, for at most `fuel` calls. The calls
/// are answered by `world`, and by `next` once a call has changed what the
/// file system holds. The run ends with the result of the operation and the
/// calls made, or with nothing where the operation asks for more than `fuel`
/// calls.
pub open spec fn run<S, T>(
    resume: spec_fn(S, ResponseView) -> StepView<S, T>,
    world: World,
    next: World,
    step: StepView<S, T>,
    fuel: nat,
) -> Option<Run<T>>
    decreases fuel,
{
    match step {
        StepView::Done(outcome) => Some(Run { outcome, requests: Seq::empty() }),
        StepView::Ask(state, request) => if fuel == 0 {
            None
        } else {
            let now = if world.changed_by(request) {
                next
            } else {
                world
            };
            match run(resume, now, next, resume(state, world.answer(request)), (fuel - 1) as nat) {
                Some(rest) => Some(
                    Run { outcome: rest.outcome, requests: seq![request] + rest.requests },
                ),
                None => None,
            }
        },
    }
}

/// Whether the operation that stands at `step` runs to `end` in some
/// number of calls.
pub open spec fn runs_to<S, T>(
    resume: spec_fn(S, ResponseView) -> StepView<S, T>,
    world: World,
    next: World,
    step: StepView<S, T>,
    end: Run<T>,
) -> bool {
    exists|fuel: nat| #[trigger] run(resume, world, next, step, fuel) == Some(end)
}

/// A run that ends within `fuel` calls ends the same way within more.
pub proof fn lemma_run_with_more<S, T>(
    resume: spec_fn(S, ResponseView) -> StepView<S, T>,
    world: World,
    next: World,
    step: StepView<S, T>,
    fuel: nat,
    more: nat,
)
    requires
        run(resume, world, next, step, fuel) is Some,
    ensures
        run(resume, world, next, step, fuel + more) == run(resume, world, next, step, fuel),
    decreases fuel,
{
    if let StepView::Ask(state, request) = step {
        let now = if world.changed_by(request) {
            next
        } else {
            world
        };
        lemma_run_with_more(
            resume,
            now,
            next,
            resume(state, world.answer(request)),
            (fuel - 1) as nat,
            more,
        );
    }
}

/// An operation runs to one end only.
pub proof fn lemma_run_is_unique<S, T>(
    resume: spec_fn(S, ResponseView) -> StepView<S, T>,
    world: World,
    next: World,
    step: StepView<S, T>,
    first: Run<T>,
    second: Run<T>,
)
    requires
        runs_to(resume, world, next, step, first),
        runs_to(resume, world, next, step, second),
    ensures
        first == second,
{
    let short: nat = choose|fuel: nat|
        #[trigger] run(resume, world, next, step, fuel) == Some(first);
    let long: nat = choose|fuel: nat|
        #[trigger] run(resume, world, next, step, fuel) == Some(second);
    lemma_run_with_more(resume, world, next, step, short, long);
    lemma_run_with_more(resume, world, next, step, long, short);
}

/// One call further: an operation that waits for the answer to `request`
/// runs to the end to which it runs from its next step, with `request` before
/// the calls made from there.
pub proof fn lemma_run_after_call<S, T>(
    resume: spec_fn(S, ResponseView) -> StepView<S, T>,
    world: World,
    next: World,
    state: S,
    request: RequestView,
    rest: Run<T>,
)
    requires
        runs_to(
            resume,
            if world.changed_by(request) {
                next
            } else {
                world
            },
            next,
            resume(state, world.answer(request)),
            rest,
        ),
    ensures
        runs_to(
            resume,
            world,
            next,
            StepView::Ask(state, request),
            Run { outcome: rest.outcome, requests: seq![request] + rest.requests },
        ),
{
    let now = if world.changed_by(request) {
        next
    } else {
        world
    };
    let fuel: nat = choose|fuel: nat|
        #[trigger] run(resume, now, next, resume(state, world.answer(request)), fuel) == Some(
            rest,
        );
    assert(run(resume, world, next, StepView::Ask(state, request), fuel + 1) == Some(
        Run { outcome: rest.outcome, requests: seq![request] + rest.requests },
    ));
}

/// Whether a call reads: it asks what stands at a path, for the text of a
/// file or for the entries of a directory.
pub open spec fn is_read(request: RequestView) -> bool {
    request is Probe || request is ReadFile || request is ReadDirectory
}

} // verus!
