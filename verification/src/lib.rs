//! A guard that deletes the running executable when it is destroyed.
//!
//! A caller registers a [`Guard`] at the start of the program. Creating it
//! does nothing; when the guard's destruction runs, the executable's own
//! file is removed from disk. Two modes are offered: [`soft`] tries once and
//! never blocks, while [`hard`] retries until the file is gone.
//!
//! The guard itself holds only the chosen mode. Each round of the deletion
//! protocol resolves the executable's path and attempts removal; the host
//! that owns the guard does that filesystem work and reports what happened
//! as a [`protocol::Event`]. The guard answers with the next
//! [`protocol::Action`]: retry, or finish with an outcome. [`Guard::drop_step`]
//! is that decision, and the laws in [`protocol`] pin down the whole loop:
//! a soft guard always finishes on its first round, and a hard guard finishes
//! exactly when a round removes the file.

use vstd::prelude::*;

pub mod protocol;

use crate::protocol::Action;
use crate::protocol::Event;
use crate::protocol::Outcome;

verus! {

/// Executable guard: destroying it triggers the self-deletion protocol.
pub struct Guard {
    /// Ensure deletion of the file, retrying till the executable is deleted.
    ensure: bool,
}

impl Guard {
    /// Whether this guard is in hard mode: retry every failure until the
    /// executable is deleted.
    pub closed spec fn is_hard(&self) -> bool {
        self.ensure
    }

    fn new(ensure: bool) -> (g: Guard)
        ensures
            g.is_hard() == ensure,
    {
        Guard { ensure }
    }

    /// Create a guard that tries to delete the host executable once.
    ///
    /// Best effort: a removal failure is tolerated and the file is left
    /// intact, so deletion may not happen; destruction never blocks.
    pub fn soft() -> (g: Guard)
        ensures
            !g.is_hard(),
    {
        Guard::new(false)
    }

    /// Create a guard that blocks till the executable is successfully deleted.
    ///
    /// Every failure, of path resolution or of removal, is retried
    /// indefinitely: destruction returns only once the file is gone.
    pub fn hard() -> (g: Guard)
        ensures
            g.is_hard(),
    {
        Guard::new(true)
    }

    /// One decision of the self-deletion protocol, taken during the guard's
    /// destruction: given what the last resolve-and-remove round observed,
    /// the action the host must take next.
    ///
    /// The host loops: it resolves the executable's path, attempts removal,
    /// and hands the resulting [`Event`] here; on [`Action::Retry`] it runs
    /// another round, and on [`Action::Finish`] destruction ends with the
    /// given [`Outcome`] (a fatal outcome is surfaced as an abrupt fault).
    pub fn drop_step(&self, event: Event) -> (a: Action)
        ensures
            a == crate::protocol::step(self.is_hard(), event),
    {
        match event {
            Event::Removed => Action::Finish(Outcome::Deleted),
            Event::RemoveFailed => if self.ensure {
                Action::Retry
            } else {
                Action::Finish(Outcome::AbandonedSilently)
            },
            Event::ResolveFailed => if self.ensure {
                Action::Retry
            } else {
                Action::Finish(Outcome::AbandonedFatally)
            },
        }
    }
}

/// Create a guard that when dropped tries to delete the host executable.
///
/// Self-destructs when dropped. Doesn't ensure that the executable is always
/// deleted, so may not work 100% of the time.
#[inline(always)]
pub fn soft() -> (g: Guard)
    ensures
        !g.is_hard(),
{
    Guard::soft()
}

/// Create a guard that when dropped blocks till the host executable is
/// successfully deleted.
#[inline(always)]
pub fn hard() -> (g: Guard)
    ensures
        g.is_hard(),
{
    Guard::hard()
}

} // verus!
