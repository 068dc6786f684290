//! The sync orchestrator: one synchronization round refreshes headers,
//! handles reorganizations, runs the download/parse/commit pipeline over
//! the computed range in strict height order, and resolves the outcome by
//! the error-precedence rule.
//!
//! The pipeline driver here advances one block at a time through the
//! three stages. Its collected [`PipelineStageResults`] and their
//! resolution are the same protocol a runner giving each stage its own
//! thread hands back after joining the workers.

use vstd::prelude::*;

use crate::coordinator::{flag_may_stop, CoordinatorChannels, KeepRunningFlag};
use crate::epochs::EpochList;
use crate::errors::{choose_pipeline_error, spec_chosen_error, BurnchainError};
use crate::indexer::{BurnchainBlockDownloader, BurnchainBlockParser, BurnchainIndexer};
use crate::sync_range::{compute_sync_range, SyncRange};
use crate::types::{BurnchainBlockHeader, BurnchainHeaderHash, HeaderIPC};

verus! {

/// Configuration of the chain being followed: where it starts. The
/// indexer injected into a round is authoritative for the same data; the
/// struct identifies the chain for the caller.
pub struct Burnchain {
    pub first_block_height: u64,
    pub first_block_hash: BurnchainHeaderHash,
}

/// The new log holds the old one unchanged as a prefix: a round only ever
/// appends commits, it never rewrites recorded ones.
pub open spec fn log_extends(
    old_log: Seq<BurnchainBlockHeader>,
    new_log: Seq<BurnchainBlockHeader>,
) -> bool {
    &&& old_log.len() <= new_log.len()
    &&& forall|j: int| 0 <= j < old_log.len() ==> old_log[j] == #[trigger] new_log[j]
}

/// The commits appended from position `from` on climb one height per
/// entry and end exactly below `tip_next`: in strictly increasing height
/// order, with no gaps and no repeats.
pub open spec fn commits_ascend_to_tip(
    from: int,
    log: Seq<BurnchainBlockHeader>,
    tip_next: int,
) -> bool {
    forall|j: int|
        from <= j < log.len() ==> #[trigger] log[j].block_height as int == tip_next - (log.len()
            - j)
}

/// Ordering invariant, spelled out: commits that ascend to a tip are
/// strictly increasing in height, and adjacent commits differ by exactly
/// one height — no gaps, no repeats.
pub proof fn lemma_commits_strictly_ascend(
    from: int,
    log: Seq<BurnchainBlockHeader>,
    tip_next: int,
)
    requires
        commits_ascend_to_tip(from, log, tip_next),
    ensures
        forall|j1: int, j2: int|
            from <= j1 < j2 < log.len() ==> #[trigger] log[j1].block_height < #[trigger] log[j2].block_height,
        forall|j: int|
            from <= j && j + 1 < log.len() ==> #[trigger] log[j].block_height as int + 1 == log[j
                + 1].block_height as int,
{
}

/// What the sequential head of a round prepares before its pipeline
/// runs: the computed range, the raw headers of that range, the height
/// the header store reached, the epoch table, and the tip standing as of
/// that point.
pub struct SyncRoundPlan {
    pub range: SyncRange,
    pub headers: Vec<HeaderIPC>,
    pub synced_height: u64,
    pub epochs: EpochList,
    pub pre_tip: BurnchainBlockHeader,
}

/// The results of the three pipeline stages of one round, as collected
/// after all of them have finished: the commit stage also reports the
/// highest block it committed, if any.
pub struct PipelineStageResults {
    pub download: Result<(), BurnchainError>,
    pub parse: Result<(), BurnchainError>,
    pub commit: Result<Option<BurnchainBlockHeader>, BurnchainError>,
}

/// The error a stage reported, if it failed.
pub open spec fn stage_error<T>(r: Result<T, BurnchainError>) -> Option<BurnchainError> {
    match r {
        Ok(_) => None,
        Err(e) => Some(e),
    }
}

/// Resolves the collected stage results into the round's outcome: the
/// precedence-chosen error when any stage failed, otherwise the highest
/// committed block's header — or the given pre-round tip when the round
/// committed nothing.
pub fn resolve_pipeline_results(
    results: PipelineStageResults,
    fallback_tip: BurnchainBlockHeader,
) -> (r: Result<BurnchainBlockHeader, BurnchainError>)
    ensures
        ({
            let chosen = spec_chosen_error(
                stage_error(results.download),
                stage_error(results.parse),
                stage_error(results.commit),
            );
            &&& (chosen matches Some(e) ==> r == Err::<BurnchainBlockHeader, BurnchainError>(e))
            &&& (chosen is None ==> {
                &&& (results.commit matches Ok(t) && t matches Some(h) ==> r == Ok::<
                    BurnchainBlockHeader,
                    BurnchainError,
                >(h))
                &&& (results.commit matches Ok(t) && t is None ==> r == Ok::<
                    BurnchainBlockHeader,
                    BurnchainError,
                >(fallback_tip))
            })
        }),
{
    let download_err: Option<BurnchainError> = match &results.download {
        Ok(_) => None,
        Err(e) => Some(*e),
    };
    let parse_err: Option<BurnchainError> = match &results.parse {
        Ok(_) => None,
        Err(e) => Some(*e),
    };
    let commit_err: Option<BurnchainError> = match &results.commit {
        Ok(_) => None,
        Err(e) => Some(*e),
    };
    match choose_pipeline_error(download_err, parse_err, commit_err) {
        Some(e) => Err(e),
        None => match results.commit {
            Ok(Some(h)) => Ok(h),
            Ok(None) => Ok(fallback_tip),
            // a failed commit stage always yields a chosen error
            Err(e) => Err(e),
        },
    }
}

/// Runs the download/parse/commit pipeline over `ipc_headers`, in strict
/// ascending height order, stopping at the first failing stage or when
/// the cancellation flag asks for a clean stop. Each committed block is
/// announced on the coordinator channel before the next one is processed.
fn run_pipeline<I: BurnchainIndexer, C: CoordinatorChannels, F: KeepRunningFlag>(
    indexer: &mut I,
    coordinator: &mut C,
    downloader: &mut I::D,
    parser: &mut I::P,
    epochs: &EpochList,
    ipc_headers: &Vec<HeaderIPC>,
    should_keep_running: Option<&F>,
) -> (r: PipelineStageResults)
    requires
        old(indexer).inv(),
        forall|i: int|
            0 <= i < ipc_headers@.len() ==> #[trigger] ipc_headers@[i].height as int == old(
                indexer,
            ).db_height() + i && ipc_headers@[i].height < u64::MAX,
    ensures
        final(indexer).inv(),
        final(indexer).first_height() == old(indexer).first_height(),
        final(indexer).reported_ancestor() == old(indexer).reported_ancestor(),
        log_extends(old(indexer).commit_log(), final(indexer).commit_log()),
        log_extends(old(indexer).canonical_chain(), final(indexer).canonical_chain()),
        ({
            let n = final(indexer).commit_log().len() - old(indexer).commit_log().len();
            &&& n <= ipc_headers@.len()
            &&& final(indexer).db_height() as int == old(indexer).db_height() + n
            &&& final(indexer).canonical_chain().len() == old(indexer).canonical_chain().len()
                + n
            &&& forall|j: int|
                0 <= j < n ==> #[trigger] final(indexer).canonical_chain()[old(
                    indexer,
                ).canonical_chain().len() + j] == final(indexer).commit_log()[old(
                    indexer,
                ).commit_log().len() + j]
            &&& commits_ascend_to_tip(
                old(indexer).commit_log().len() as int,
                final(indexer).commit_log(),
                final(indexer).db_height() as int,
            )
            &&& {
                ||| final(coordinator).signals() == old(coordinator).signals() + n
                ||| (final(coordinator).signals() + 1 == old(coordinator).signals() + n
                    && r.download is Ok && r.parse is Ok && r.commit == Err::<
                    Option<BurnchainBlockHeader>,
                    BurnchainError,
                >(BurnchainError::CoordinatorClosed))
            }
            &&& (r.commit matches Ok(t) ==> {
                &&& (t matches Some(h) ==> n > 0 && h == final(indexer).commit_log().last())
                &&& (t is None ==> n == 0)
            })
            // a claimed success means the work happened: unless the
            // cancellation flag could have asked for a stop, an
            // all-success result commits every header
            &&& (!flag_may_stop(should_keep_running) && r.download is Ok && r.parse is Ok && (
            r.commit matches Ok(_)) ==> n == ipc_headers@.len())
        }),
        // with nothing to process, success is owed outright
        ipc_headers@.len() == 0 ==> r.download is Ok && r.parse is Ok && r.commit == Ok::<
            Option<BurnchainBlockHeader>,
            BurnchainError,
        >(None),
{
    let ghost log0 = indexer.commit_log();
    let ghost chain0 = indexer.canonical_chain();
    let ghost rep0 = indexer.reported_ancestor();
    let ghost db0 = indexer.db_height();
    let ghost sig0 = coordinator.signals();
    let ghost first0 = indexer.first_height();
    let mut download_err: Option<BurnchainError> = None;
    let mut parse_err: Option<BurnchainError> = None;
    let mut commit_err: Option<BurnchainError> = None;
    let mut last_committed: Option<BurnchainBlockHeader> = None;
    let n_headers: usize = ipc_headers.len();
    let mut i: usize = 0;
    while i < n_headers
        invariant_except_break
            indexer.inv(),
            indexer.first_height() == first0,
            n_headers == ipc_headers@.len(),
            forall|ii: int|
                0 <= ii < ipc_headers@.len() ==> #[trigger] ipc_headers@[ii].height as int == db0
                    + ii && ipc_headers@[ii].height < u64::MAX,
            indexer.reported_ancestor() == rep0,
            log_extends(log0, indexer.commit_log()),
            log_extends(chain0, indexer.canonical_chain()),
            indexer.commit_log().len() == log0.len() + i,
            indexer.canonical_chain().len() == chain0.len() + i,
            forall|j: int|
                0 <= j < i ==> #[trigger] indexer.canonical_chain()[chain0.len() + j]
                    == indexer.commit_log()[log0.len() + j],
            indexer.db_height() as int == db0 + i,
            commits_ascend_to_tip(log0.len() as int, indexer.commit_log(), indexer.db_height() as int),
            coordinator.signals() == sig0 + i,
            i <= n_headers,
            download_err is None,
            parse_err is None,
            commit_err is None,
            i > 0 ==> last_committed == Some(indexer.commit_log().last()),
            i == 0 ==> last_committed is None,
        ensures
            indexer.inv(),
            indexer.first_height() == first0,
            indexer.reported_ancestor() == rep0,
            log_extends(log0, indexer.commit_log()),
            log_extends(chain0, indexer.canonical_chain()),
            ({
                let k = indexer.commit_log().len() - log0.len();
                &&& k <= n_headers
                &&& indexer.db_height() as int == db0 + k
                &&& indexer.canonical_chain().len() == chain0.len() + k
                &&& forall|j: int|
                    0 <= j < k ==> #[trigger] indexer.canonical_chain()[chain0.len() + j]
                        == indexer.commit_log()[log0.len() + j]
                &&& commits_ascend_to_tip(
                    log0.len() as int,
                    indexer.commit_log(),
                    indexer.db_height() as int,
                )
                &&& {
                    ||| coordinator.signals() == sig0 + k
                    ||| (coordinator.signals() + 1 == sig0 + k && download_err is None
                        && parse_err is None && commit_err == Some(
                        BurnchainError::CoordinatorClosed,
                    ))
                }
                &&& (k > 0 ==> last_committed == Some(indexer.commit_log().last()))
                &&& (k == 0 ==> last_committed is None)
                &&& (!flag_may_stop(should_keep_running) && download_err is None && parse_err
                    is None && commit_err is None ==> k == n_headers)
                &&& (n_headers == 0 ==> download_err is None && parse_err is None && commit_err
                    is None)
            }),
        decreases n_headers - i,
    {
        // Cancellation is polled between blocks, never mid-block; a
        // lowered flag stops the round cleanly, as if the input ended.
        let still_running: bool = match should_keep_running {
            Some(flag) => flag.keep_running(),
            None => true,
        };
        if !still_running {
            break;
        }
        let hdr: HeaderIPC = ipc_headers[i];
        // Download stage: fetch the block for this header; on failure,
        // stop at once — nothing past the failing item is processed.
        let block = match downloader.download(&hdr) {
            Ok(b) => b,
            Err(e) => {
                download_err = Some(e);
                break;
            },
        };
        // Parse stage: decode under the epoch active at this height; a
        // height no epoch covers cannot be decoded.
        let epoch_id = match epochs.epoch_id_at(hdr.height) {
            Some(id) => id,
            None => {
                parse_err = Some(BurnchainError::ParseError);
                break;
            },
        };
        let parsed = match parser.parse(&block, epoch_id) {
            Ok(pb) => pb,
            Err(e) => {
                parse_err = Some(e);
                break;
            },
        };
        // Commit stage: strict height order — this block sits exactly on
        // the committed tip, as the pipeline's bookkeeping guarantees.
        let block_data = parsed.into_block_data();
        match indexer.process_block(&block_data) {
            Ok(_) => {
                last_committed = Some(block_data.header);
            },
            Err(e) => {
                commit_err = Some(e);
                break;
            },
        }
        // One signal per committed block; a dead coordinator ends the
        // round, since the surrounding process is shutting down.
        let alive = coordinator.announce_new_burn_block();
        if !alive {
            commit_err = Some(BurnchainError::CoordinatorClosed);
            break;
        }
        i = i + 1;
    }
    PipelineStageResults {
        download: match download_err {
            Some(e) => Err(e),
            None => Ok(()),
        },
        parse: match parse_err {
            Some(e) => Err(e),
            None => Ok(()),
        },
        commit: match commit_err {
            Some(e) => Err(e),
            None => Ok(last_committed),
        },
    }
}

impl Burnchain {
    /// A configuration for unit tests: a chain starting at the given
    /// height and hash.
    pub fn default_unittest(
        first_block_height: u64,
        first_block_hash: &BurnchainHeaderHash,
    ) -> (r: Burnchain)
        ensures
            r.first_block_height == first_block_height,
            r.first_block_hash == *first_block_hash,
    {
        Burnchain { first_block_height, first_block_hash: *first_block_hash }
    }

    /// The sequential head of one round: connects the indexer, advances
    /// the raw-header store, handles a reorganization, computes the range
    /// of heights to process, reads that range's headers, and fixes the
    /// tip standing as of this point. Commits nothing and signals
    /// nothing; a reorganization may lower the committed tip, never
    /// raise it.
    ///
    /// On success the plan's headers sit contiguously on the committed
    /// tip, stay within the caller's target and block-count bounds, and
    /// are empty exactly when the round has nothing to do.
    pub fn prepare_sync_round<I: BurnchainIndexer>(
        &self,
        indexer: &mut I,
        target_height: Option<u64>,
        max_blocks: Option<u64>,
    ) -> (r: Result<SyncRoundPlan, BurnchainError>)
        requires
            old(indexer).inv(),
        ensures
            final(indexer).inv(),
            final(indexer).first_height() == old(indexer).first_height(),
            final(indexer).commit_log() == old(indexer).commit_log(),
            final(indexer).db_height() <= old(indexer).db_height(),
            // the head of a round only ever cuts the chain back
            log_extends(final(indexer).canonical_chain(), old(indexer).canonical_chain()),
            r matches Ok(p) ==> {
                &&& final(indexer).first_height() <= final(indexer).db_height()
                &&& final(indexer).db_height() as int == final(indexer).first_height()
                    + final(indexer).canonical_chain().len()
                &&& p.range.wf()
                &&& p.range.start == final(indexer).db_height()
                &&& p.headers@.len() <= p.range.spec_len()
                &&& (p.range.spec_is_empty() ==> p.headers@.len() == 0)
                &&& forall|i: int|
                    0 <= i < p.headers@.len() ==> #[trigger] p.headers@[i].height as int
                        == final(indexer).db_height() + i && p.headers@[i].height < u64::MAX
                &&& (target_height matches Some(t) ==> forall|i: int|
                    0 <= i < p.headers@.len() ==> #[trigger] p.headers@[i].height <= t)
                &&& forall|i: int|
                    0 <= i < p.headers@.len() ==> #[trigger] p.headers@[i].height
                        <= p.synced_height
                &&& (max_blocks matches Some(m) ==> p.headers@.len() <= m)
                &&& (final(indexer).db_height() > final(indexer).first_height()
                    ==> p.pre_tip.block_height as int == final(indexer).db_height() - 1)
                &&& (final(indexer).db_height() == final(indexer).first_height()
                    ==> p.pre_tip.block_height == final(indexer).first_height())
                // the standing tip is the canonical chain's own last block
                &&& (final(indexer).canonical_chain().len() > 0 ==> p.pre_tip
                    == final(indexer).canonical_chain().last())
                &&& (final(indexer).canonical_chain().len() == 0 ==> p.pre_tip.block_height
                    == final(indexer).first_height())
                // a stale reported ancestor forced invalidation back to it
                &&& (final(indexer).reported_ancestor() matches Some(a) ==> {
                    &&& (a + 1 < old(indexer).db_height() ==> final(indexer).db_height() == a
                        + 1)
                    &&& (a + 1 >= old(indexer).db_height() ==> final(indexer).db_height()
                        == old(indexer).db_height())
                })
            },
    {
        // Step 1: connect (idempotent).
        match indexer.connect() {
            Ok(_) => (),
            Err(e) => {
                return Err(e);
            },
        }
        let first: u64 = indexer.get_first_block_height();
        // Step 2: advance the raw-header store towards the target, or as
        // far as the source chain reports when no target is given.
        let raw_height: u64 = match indexer.get_headers_height() {
            Ok(h) => h,
            Err(e) => {
                return Err(e);
            },
        };
        let sync_goal: Option<u64> = match target_height {
            Some(t) => Some(t),
            None => match indexer.get_highest_header_height() {
                Ok(h) => Some(h),
                Err(e) => {
                    return Err(e);
                },
            },
        };
        let synced_height: u64 = match indexer.sync_headers(raw_height, sync_goal) {
            Ok(h) => h,
            Err(e) => {
                return Err(e);
            },
        };
        // Step 3: find the common ancestor with the fresh headers; a
        // stale ancestor below the committed tip forces invalidation back
        // to it before anything above may be committed.
        let db_height: u64 = match indexer.get_burnchain_headers_height() {
            Ok(h) => h,
            Err(e) => {
                return Err(e);
            },
        };
        let ancestor: u64 = match indexer.find_chain_reorg() {
            Ok(a) => a,
            Err(e) => {
                return Err(e);
            },
        };
        let local_next: u64 = if ancestor < db_height && db_height - ancestor > 1 {
            match indexer.drop_headers(ancestor) {
                Ok(_) => ancestor + 1,
                Err(e) => {
                    return Err(e);
                },
            }
        } else {
            db_height
        };
        // Step 4: the contiguous range of heights this round processes.
        let range = compute_sync_range(
            local_next,
            first,
            synced_height,
            target_height,
            max_blocks,
        );
        // The tip as of this point: the committed canonical tip, or the
        // chain's first block while nothing is committed yet.
        let pre_tip: BurnchainBlockHeader = if local_next > first {
            match indexer.read_burnchain_headers(local_next - 1, 1) {
                Ok(v) => v[0],
                Err(e) => {
                    return Err(e);
                },
            }
        } else {
            let first_hash = match indexer.get_first_block_header_hash() {
                Ok(h) => h,
                Err(e) => {
                    return Err(e);
                },
            };
            let first_timestamp = match indexer.get_first_block_header_timestamp() {
                Ok(t) => t,
                Err(e) => {
                    return Err(e);
                },
            };
            BurnchainBlockHeader {
                block_height: first,
                block_hash: first_hash,
                parent_block_hash: BurnchainHeaderHash::zero(),
                num_txs: 0,
                timestamp: first_timestamp,
            }
        };
        // The headers the pipeline will process; none when the range is
        // empty.
        let headers: Vec<HeaderIPC> = if range.is_empty() {
            Vec::new()
        } else {
            match indexer.read_headers(range.start, range.end_plus_one) {
                Ok(v) => v,
                Err(e) => {
                    return Err(e);
                },
            }
        };
        let epochs: EpochList = indexer.get_stacks_epochs();
        Ok(SyncRoundPlan { range, headers, synced_height, epochs, pre_tip })
    }

    /// Drives one synchronization round: connects the indexer, refreshes
    /// headers, handles a reorganization, computes the range of heights
    /// to process, runs the pipeline over it, and resolves the outcome.
    ///
    /// Whatever happens, the round only appends to the record of commits,
    /// and what it appends climbs one height per block, gaplessly, up to
    /// the committed tip: a failed round keeps its committed prefix. One
    /// coordinator signal is delivered per committed block (the round
    /// ends with `CoordinatorClosed` when the last one finds the channel
    /// gone). On success the returned header is the highest committed
    /// block — or, when the round had nothing to do, the tip it found.
    pub fn sync_with_indexer<I: BurnchainIndexer, C: CoordinatorChannels, F: KeepRunningFlag>(
        &self,
        indexer: &mut I,
        coordinator: &mut C,
        target_height: Option<u64>,
        max_blocks: Option<u64>,
        should_keep_running: Option<&F>,
    ) -> (r: Result<BurnchainBlockHeader, BurnchainError>)
        requires
            old(indexer).inv(),
        ensures
            final(indexer).inv(),
            final(indexer).first_height() == old(indexer).first_height(),
            log_extends(old(indexer).commit_log(), final(indexer).commit_log()),
            commits_ascend_to_tip(
                old(indexer).commit_log().len() as int,
                final(indexer).commit_log(),
                final(indexer).db_height() as int,
            ),
            // the tip never advances beyond one height per new commit: a
            // reorganization may lower the base, but never raise it
            final(indexer).db_height() as int <= old(indexer).db_height() as int + (
            final(indexer).commit_log().len() - old(indexer).commit_log().len()),
            ({
                let n = final(indexer).commit_log().len() - old(indexer).commit_log().len();
                ||| final(coordinator).signals() == old(coordinator).signals() + n
                ||| (final(coordinator).signals() + 1 == old(coordinator).signals() + n && r
                    == Err::<BurnchainBlockHeader, BurnchainError>(
                    BurnchainError::CoordinatorClosed,
                ))
            }),
            // the caller's bounds govern the round
            max_blocks matches Some(m) ==> final(indexer).commit_log().len() - old(
                indexer,
            ).commit_log().len() <= m,
            target_height matches Some(t) ==> (final(indexer).commit_log().len() > old(
                indexer,
            ).commit_log().len() ==> final(indexer).db_height() <= t + 1),
            r matches Ok(h) ==> {
                &&& (final(indexer).commit_log().len() > old(indexer).commit_log().len()
                    ==> h == final(indexer).commit_log().last())
                &&& (final(indexer).db_height() > final(indexer).first_height()
                    ==> h.block_height as int == final(indexer).db_height() - 1)
                &&& (final(indexer).db_height() == final(indexer).first_height()
                    ==> h.block_height == final(indexer).first_height())
                // the returned tip is the canonical chain's own last block
                &&& (final(indexer).canonical_chain().len() > 0 ==> h
                    == final(indexer).canonical_chain().last())
                &&& (final(indexer).canonical_chain().len() == 0 ==> h.block_height
                    == final(indexer).first_height())
            },
            // a reported stale ancestor forced invalidation back to it
            // before anything of this round was committed
            r matches Ok(_) ==> (final(indexer).reported_ancestor() matches Some(a) ==> (a + 1
                < old(indexer).db_height() ==> final(indexer).db_height() as int == a + 1 + (
            final(indexer).commit_log().len() - old(indexer).commit_log().len()))),
    {
        // Steps 1 to 4: the sequential head of the round.
        let plan = match self.prepare_sync_round(indexer, target_height, max_blocks) {
            Ok(p) => p,
            Err(e) => {
                return Err(e);
            },
        };
        if plan.range.is_empty() {
            // Nothing to do: no pipeline is launched, the tip stands.
            return Ok(plan.pre_tip);
        }
        let ghost prep_db = indexer.db_height();
        let ghost prep_log_len = indexer.commit_log().len();
        let ghost prep_chain = indexer.canonical_chain();
        // Step 5: launch the pipeline over the headers of the range.
        let mut downloader = indexer.downloader();
        let mut parser = indexer.parser();
        let results = run_pipeline(
            indexer,
            coordinator,
            &mut downloader,
            &mut parser,
            &plan.epochs,
            &plan.headers,
            should_keep_running,
        );
        proof {
            let n = indexer.commit_log().len() - prep_log_len;
            // the last committed header stays within the target bound
            if n > 0 && target_height is Some {
                assert(plan.headers@[n - 1].height as int == prep_db + n - 1);
                assert(indexer.db_height() as int == prep_db + n);
            }
            // the chain's last block is the last commit of the round, or
            // the block the standing tip was read from
            if n > 0 {
                assert(indexer.canonical_chain()[prep_chain.len() + (n - 1)]
                    == indexer.commit_log()[prep_log_len + (n - 1)]);
            } else if prep_chain.len() > 0 {
                assert(indexer.canonical_chain()[prep_chain.len() - 1] == prep_chain[prep_chain.len()
                    - 1]);
            }
        }
        // Steps 6 and 7: resolve the collected stage results into the one
        // outcome of the round.
        resolve_pipeline_results(results, plan.pre_tip)
    }
}

} // verus!
