//! The error kinds a synchronization round can report, and the precedence
//! rule that picks the single kind surfaced to the caller when several
//! pipeline stages fail in the same round.

use vstd::prelude::*;

verus! {

/// The failure kinds of one synchronization round.
#[derive(Clone, Copy, Debug, PartialEq, Eq, Structural)]
pub enum BurnchainError {
    /// Fetching a block or syncing headers from the source chain failed.
    DownloadError,
    /// Decoding a fetched block into the internal representation failed.
    ParseError,
    /// A worker ended abnormally, or a stage saw an unexpected channel
    /// closure that no other kind explains.
    ThreadChannelError,
    /// Committing a parsed block's derived state failed.
    DBError,
    /// The downstream coordinator channel is gone; the surrounding process
    /// is already shutting down.
    CoordinatorClosed,
}

/// Precedence rank of an error kind: a lower rank is surfaced first.
/// The earliest pipeline stage gives the most informative root cause, so
/// download outranks parse, parse outranks the thread-channel catch-all,
/// and commit-side failures come last.
pub open spec fn error_rank(e: BurnchainError) -> int {
    match e {
        BurnchainError::DownloadError => 0,
        BurnchainError::ParseError => 1,
        BurnchainError::ThreadChannelError => 2,
        BurnchainError::DBError => 3,
        BurnchainError::CoordinatorClosed => 4,
    }
}

/// The error chosen from the download, parse and commit stage results:
/// the kind with the best (lowest) rank, the earlier stage winning ties.
pub open spec fn spec_chosen_error(
    download: Option<BurnchainError>,
    parse: Option<BurnchainError>,
    commit: Option<BurnchainError>,
) -> Option<BurnchainError> {
    let best_tail = match (parse, commit) {
        (Some(p), Some(c)) => if error_rank(p) <= error_rank(c) { Some(p) } else { Some(c) },
        (Some(p), None) => Some(p),
        (None, Some(c)) => Some(c),
        (None, None) => None,
    };
    match (download, best_tail) {
        (Some(d), Some(t)) => if error_rank(d) <= error_rank(t) { Some(d) } else { Some(t) },
        (Some(d), None) => Some(d),
        (None, Some(t)) => Some(t),
        (None, None) => None,
    }
}

/// Picks the one error a round surfaces when several stages failed.
///
/// Exactly one error of the round is reported; the rest are discarded.
/// The choice is by fixed kind precedence (download, then parse, then
/// thread-channel, then commit-side), the earlier stage winning ties.
pub fn choose_pipeline_error(
    download: Option<BurnchainError>,
    parse: Option<BurnchainError>,
    commit: Option<BurnchainError>,
) -> (r: Option<BurnchainError>)
    ensures
        r == spec_chosen_error(download, parse, commit),
{
    let best_tail: Option<BurnchainError> = match (parse, commit) {
        (Some(p), Some(c)) => if error_rank_exec(p) <= error_rank_exec(c) { Some(p) } else { Some(c) },
        (Some(p), None) => Some(p),
        (None, Some(c)) => Some(c),
        (None, None) => None,
    };
    match (download, best_tail) {
        (Some(d), Some(t)) => if error_rank_exec(d) <= error_rank_exec(t) { Some(d) } else { Some(t) },
        (Some(d), None) => Some(d),
        (None, Some(t)) => Some(t),
        (None, None) => None,
    }
}

/// Executable twin of [`error_rank`].
pub fn error_rank_exec(e: BurnchainError) -> (r: u8)
    ensures
        r as int == error_rank(e),
{
    match e {
        BurnchainError::DownloadError => 0,
        BurnchainError::ParseError => 1,
        BurnchainError::ThreadChannelError => 2,
        BurnchainError::DBError => 3,
        BurnchainError::CoordinatorClosed => 4,
    }
}

/// Error precedence: whenever at least one stage failed, the round reports
/// an error, that error is one a stage actually returned, and no failing
/// stage returned an error of a strictly better rank.
pub proof fn lemma_error_precedence(
    download: Option<BurnchainError>,
    parse: Option<BurnchainError>,
    commit: Option<BurnchainError>,
)
    requires
        download is Some || parse is Some || commit is Some,
    ensures
        spec_chosen_error(download, parse, commit) is Some,
        ({
            let chosen = spec_chosen_error(download, parse, commit)->0;
            &&& (download == Some(chosen) || parse == Some(chosen) || commit == Some(chosen))
            &&& (download matches Some(d) ==> error_rank(chosen) <= error_rank(d))
            &&& (parse matches Some(p) ==> error_rank(chosen) <= error_rank(p))
            &&& (commit matches Some(c) ==> error_rank(chosen) <= error_rank(c))
        }),
{
}

} // verus!
