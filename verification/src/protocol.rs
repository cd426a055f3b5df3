//! The self-deletion protocol: the decisions a guard takes while it tries to
//! remove the running executable, and the laws that hold of them.
//!
//! One iteration of the protocol resolves the executable's path and attempts
//! to remove the file; what it observed is an [`Event`]. The guard's mode
//! (soft or hard) decides what happens next: retry, or finish with an
//! [`Outcome`]. The host that owns the guard performs the filesystem work and
//! feeds the events in; the decisions themselves are verified here.

use vstd::prelude::*;

verus! {

/// What one iteration of the deletion protocol observed.
#[derive(Clone, Copy, Debug, PartialEq, Eq, Structural)]
pub enum Event {
    /// The operating system could not report the running executable's path.
    ResolveFailed,
    /// The path was resolved, but the file could not be removed
    /// (permissions, a lock, or the file is already gone).
    RemoveFailed,
    /// The file was removed.
    Removed,
}

/// A terminal outcome of a guard's destruction.
#[derive(Clone, Copy, Debug, PartialEq, Eq, Structural)]
pub enum Outcome {
    /// The executable was deleted.
    Deleted,
    /// Soft mode tolerated a removal failure; the file is left intact.
    AbandonedSilently,
    /// Soft mode could not resolve the executable's path; the host must
    /// surface this as a fatal fault of the destruction routine.
    AbandonedFatally,
}

/// What the host must do after one iteration of the protocol.
#[derive(Clone, Copy, Debug, PartialEq, Eq, Structural)]
pub enum Action {
    /// Re-resolve the path and attempt removal again.
    Retry,
    /// Destruction ends with this outcome.
    Finish(Outcome),
}

/// The protocol's transition function: given the guard's mode (`hard`) and
/// the event one iteration observed, the action the guard takes.
///
/// A successful removal always ends the protocol. Hard mode retries every
/// failure. Soft mode never retries: a removal failure is tolerated
/// silently, and a resolution failure is fatal.
pub open spec fn step(hard: bool, event: Event) -> Action {
    match event {
        Event::Removed => Action::Finish(Outcome::Deleted),
        Event::RemoveFailed => if hard {
            Action::Retry
        } else {
            Action::Finish(Outcome::AbandonedSilently)
        },
        Event::ResolveFailed => if hard {
            Action::Retry
        } else {
            Action::Finish(Outcome::AbandonedFatally)
        },
    }
}

/// The protocol run against a finite prefix of the events the filesystem
/// will hand it, in order: `Some(outcome)` if destruction finishes within
/// that prefix, `None` if the guard is still retrying when the prefix ends.
pub open spec fn run_protocol(hard: bool, events: Seq<Event>) -> Option<Outcome>
    decreases events.len(),
{
    if events.len() == 0 {
        None
    } else {
        match step(hard, events[0]) {
            Action::Finish(outcome) => Some(outcome),
            Action::Retry => run_protocol(hard, events.subrange(1, events.len() as int)),
        }
    }
}

/// A soft guard never retries: whatever one iteration observed, destruction
/// ends at once, so dropping a soft guard cannot block.
pub proof fn lemma_soft_never_retries(event: Event)
    ensures
        step(false, event) is Finish,
{
}

/// A soft guard's destruction completes on the first event, and its outcome
/// is decided by that event alone: a successful removal deletes the
/// executable, a removal failure is tolerated silently, and a resolution
/// failure is fatal.
pub proof fn lemma_soft_outcome(events: Seq<Event>)
    requires
        events.len() > 0,
    ensures
        events[0] == Event::Removed ==> run_protocol(false, events) == Some(Outcome::Deleted),
        events[0] == Event::RemoveFailed ==> run_protocol(false, events)
            == Some(Outcome::AbandonedSilently),
        events[0] == Event::ResolveFailed ==> run_protocol(false, events)
            == Some(Outcome::AbandonedFatally),
{
}

/// A hard guard converges once the obstruction clears: if any iteration
/// within the trace removes the file, destruction finishes with the
/// executable deleted, however many failures came before.
pub proof fn lemma_hard_converges(events: Seq<Event>, k: int)
    requires
        0 <= k < events.len(),
        events[k] == Event::Removed,
    ensures
        run_protocol(true, events) == Some(Outcome::Deleted),
    decreases events.len(),
{
    if events[0] != Event::Removed {
        lemma_hard_converges(events.subrange(1, events.len() as int), k - 1);
    }
}

/// A hard guard never abandons: if its destruction finishes at all, the
/// executable was deleted.
pub proof fn lemma_hard_never_abandons(events: Seq<Event>)
    ensures
        run_protocol(true, events) is Some ==> run_protocol(true, events)
            == Some(Outcome::Deleted),
    decreases events.len(),
{
    if events.len() > 0 && step(true, events[0]) is Retry {
        lemma_hard_never_abandons(events.subrange(1, events.len() as int));
    }
}

/// A hard guard blocks while removal keeps failing: a trace in which no
/// iteration removes the file never ends its destruction, however long it is.
pub proof fn lemma_hard_blocks_without_success(events: Seq<Event>)
    requires
        forall|i: int| 0 <= i < events.len() ==> events[i] != Event::Removed,
    ensures
        run_protocol(true, events) is None,
    decreases events.len(),
{
    if events.len() > 0 {
        lemma_hard_blocks_without_success(events.subrange(1, events.len() as int));
    }
}

/// Destroying a guard after the executable is already gone never faults:
/// every removal attempt simply fails, so a soft guard completes silently
/// and a hard guard keeps retrying. Neither mode reaches the fatal outcome,
/// which is reserved for a soft guard that cannot resolve its own path.
pub proof fn lemma_second_guard_idempotent(events: Seq<Event>)
    requires
        events.len() > 0,
        forall|i: int| 0 <= i < events.len() ==> events[i] == Event::RemoveFailed,
    ensures
        run_protocol(false, events) == Some(Outcome::AbandonedSilently),
        run_protocol(true, events) is None,
{
    lemma_hard_blocks_without_success(events);
}

} // verus!
