//! The two signals that connect a synchronization round to its
//! surroundings: the coordinator channel pinged once per committed block,
//! and the shared cancellation flag every stage polls between blocks.

use vstd::prelude::*;

verus! {

/// The downstream signaling channel: the orchestrator announces each
/// committed block so higher-level coordinator logic can wake up.
///
/// Ghost state: `signals` counts the announcements delivered so far.
pub trait CoordinatorChannels: Sized {
    /// How many block announcements have been delivered.
    spec fn signals(&self) -> nat;

    /// Announce one newly committed block. Returns whether the receiving
    /// side is still alive; an announcement to a dead receiver delivers
    /// nothing.
    fn announce_new_burn_block(&mut self) -> (alive: bool)
        ensures
            alive ==> final(self).signals() == old(self).signals() + 1,
            !alive ==> final(self).signals() == old(self).signals(),
    ;
}

/// A shared, read-only view of the caller's cancellation flag. Every
/// stage polls it between one block and the next; no value it returns is
/// promised to persist, so a stage re-reads it each round of work.
///
/// Ghost state: `may_stop` says whether the flag can ever ask for a
/// stop. A flag that cannot stop always answers that work continues, so
/// with such a flag a round is obliged to make full progress.
pub trait KeepRunningFlag {
    /// Whether this flag can ever ask for a stop.
    spec fn may_stop(&self) -> bool;

    /// Whether work should continue. `false` asks for a clean stop.
    fn keep_running(&self) -> (r: bool)
        ensures
            !self.may_stop() ==> r,
    ;
}

/// Whether an optional cancellation flag can ever ask for a stop; an
/// absent flag never does.
pub open spec fn flag_may_stop<F: KeepRunningFlag>(flag: Option<&F>) -> bool {
    match flag {
        Some(f) => f.may_stop(),
        None => false,
    }
}

} // verus!
