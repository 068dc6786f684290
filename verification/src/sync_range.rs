//! The contiguous range of heights one synchronization round processes:
//! from the height above the locally committed tip up to the lowest of the
//! newly synced header height, the caller's target height, and the
//! caller's block-count bound.

use vstd::prelude::*;

verus! {

/// The half-open range `[start, end_plus_one)` of block heights one round
/// hands to the pipeline. An empty range (`start == end_plus_one`) is
/// valid and means there is nothing to do.
#[derive(Clone, Copy, Debug)]
pub struct SyncRange {
    pub start: u64,
    pub end_plus_one: u64,
}

impl SyncRange {
    /// A range is well formed when its end does not precede its start.
    pub open spec fn wf(self) -> bool {
        self.start <= self.end_plus_one
    }

    /// Whether the round has nothing to process.
    pub open spec fn spec_is_empty(self) -> bool {
        self.start == self.end_plus_one
    }

    /// Whether the round has nothing to process.
    pub fn is_empty(&self) -> (r: bool)
        ensures
            r == self.spec_is_empty(),
    {
        self.start == self.end_plus_one
    }

    /// How many heights the round processes.
    pub open spec fn spec_len(self) -> int {
        self.end_plus_one - self.start
    }
}

/// Where the round starts: just above the locally committed chain, but
/// never below the chain's first block height.
pub open spec fn spec_sync_start(local_next_height: u64, first_block_height: u64) -> int {
    if local_next_height >= first_block_height {
        local_next_height as int
    } else {
        first_block_height as int
    }
}

/// One past where the round ends: capped by the newly synced header
/// height, by the caller's target height, and by the caller's bound on
/// blocks per round; clamped so an exhausted cap yields an empty range.
/// Heights live in `u64`, so the greatest representable height is never
/// part of a range: committing it would leave no height for its successor.
pub open spec fn spec_sync_end_plus_one(
    start: int,
    synced_height: u64,
    target_height: Option<u64>,
    max_blocks: Option<u64>,
) -> int {
    let by_synced: int = if synced_height == u64::MAX {
        u64::MAX as int
    } else {
        synced_height as int + 1
    };
    let by_target: int = match target_height {
        Some(t) => if t as int + 1 < by_synced { t as int + 1 } else { by_synced },
        None => by_synced,
    };
    let by_count: int = match max_blocks {
        Some(m) => if start + m < by_target { start + m } else { by_target },
        None => by_target,
    };
    if by_count < start {
        start
    } else {
        by_count
    }
}

/// Computes the range of heights the round processes, as the data model
/// prescribes: `start` is the maximum of the locally committed next height
/// and the first block height; the end is the minimum of the newly synced
/// header height, the target height, and `start` plus the block bound.
pub fn compute_sync_range(
    local_next_height: u64,
    first_block_height: u64,
    synced_height: u64,
    target_height: Option<u64>,
    max_blocks: Option<u64>,
) -> (r: SyncRange)
    ensures
        r.wf(),
        r.start as int == spec_sync_start(local_next_height, first_block_height),
        r.end_plus_one as int == spec_sync_end_plus_one(
            r.start as int,
            synced_height,
            target_height,
            max_blocks,
        ),
{
    let start: u64 = if local_next_height >= first_block_height {
        local_next_height
    } else {
        first_block_height
    };
    let by_synced: u64 = if synced_height == u64::MAX {
        u64::MAX
    } else {
        synced_height + 1
    };
    let by_target: u64 = match target_height {
        Some(t) => {
            if t < by_synced {
                // here t < u64::MAX, so t + 1 cannot overflow
                t + 1
            } else {
                by_synced
            }
        },
        None => by_synced,
    };
    let by_count: u64 = match max_blocks {
        Some(m) => {
            if m < by_target && start <= by_target - m {
                // start + m stays below by_target <= u64::MAX
                start + m
            } else {
                by_target
            }
        },
        None => by_target,
    };
    let end_plus_one: u64 = if by_count < start {
        start
    } else {
        by_count
    };
    SyncRange { start, end_plus_one }
}

/// Idempotence of an empty range: once the locally committed chain has
/// reached the target height, the computed range is empty, so a further
/// round with the same target launches no pipeline and commits nothing.
pub proof fn lemma_range_empty_once_target_reached(
    local_next_height: u64,
    first_block_height: u64,
    synced_height: u64,
    target: u64,
    max_blocks: Option<u64>,
)
    requires
        target < local_next_height,
        first_block_height <= local_next_height,
    ensures
        ({
            let start = spec_sync_start(local_next_height, first_block_height);
            spec_sync_end_plus_one(start, synced_height, Some(target), max_blocks) == start
        }),
{
}

} // verus!
