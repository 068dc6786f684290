//! The thread-join adapter: collapses how a worker ended into a single
//! `Result`, so a crashed worker becomes a reportable, typed failure
//! instead of a propagating panic.

use vstd::prelude::*;

use crate::burnchain::Burnchain;
use crate::errors::BurnchainError;

verus! {

/// How a worker ended, as observed by whoever joined it: either it ran to
/// completion and produced a value, or it terminated abnormally and
/// produced nothing.
#[derive(Clone, Copy, Debug)]
pub enum JoinOutcome<T> {
    Finished(T),
    Panicked,
}

impl Burnchain {
    /// Turns a joined worker's outcome into one `Result`: a finished
    /// worker's own result passes through unchanged, and an abnormal
    /// termination becomes a thread-channel error — it is never re-raised
    /// to the caller.
    pub fn handle_thread_join<T>(
        outcome: JoinOutcome<Result<T, BurnchainError>>,
        _thread_name: &str,
    ) -> (r: Result<T, BurnchainError>)
        ensures
            outcome matches JoinOutcome::Finished(res) ==> r == res,
            outcome matches JoinOutcome::Panicked ==> r == Err::<T, BurnchainError>(
                BurnchainError::ThreadChannelError,
            ),
    {
        match outcome {
            JoinOutcome::Finished(res) => res,
            JoinOutcome::Panicked => Err(BurnchainError::ThreadChannelError),
        }
    }
}

} // verus!
