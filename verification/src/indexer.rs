//! The collaborator interfaces the orchestrator drives: the indexer that
//! abstracts the source chain and owns header persistence and chain-state,
//! the downloader that fetches full blocks, and the parser that decodes
//! them. Implementations are injected by the caller; the contracts here
//! are what one synchronization round relies on.

use vstd::prelude::*;

use crate::epochs::{EpochList, StacksEpochId};
use crate::errors::BurnchainError;
use crate::types::{
    BlockIPC, BurnchainBlock, BurnchainBlockData, BurnchainBlockHeader, BurnchainHeaderHash,
    HeaderIPC,
};

verus! {

/// Fetches full block payloads from the source chain, one header at a
/// time, in the order the download stage asks for them.
pub trait BurnchainBlockDownloader: Sized {
    /// Fetch the full block for `header`. A block that comes back belongs
    /// to the header it was asked for; any failure is reported as an
    /// error, most often a download-class one.
    fn download(&mut self, header: &HeaderIPC) -> (r: Result<BlockIPC, BurnchainError>)
        ensures
            r matches Ok(b) ==> b.header == *header,
    ;
}

/// Decodes fetched blocks into the node's internal representation, under
/// the protocol rules of the epoch active at the block's height.
pub trait BurnchainBlockParser: Sized {
    /// Decode `block` under the rules of `epoch_id`. A decoded block is
    /// well formed and claims the height and hash of the record it was
    /// decoded from.
    fn parse(&mut self, block: &BlockIPC, epoch_id: StacksEpochId) -> (r: Result<
        BurnchainBlock,
        BurnchainError,
    >)
        ensures
            r matches Ok(pb) ==> {
                &&& pb.wf()
                &&& pb.spec_height() == block.header.height
                &&& pb.spec_hash().0 == block.header.hash
            },
    ;
}

/// Abstracts the source chain: connects to it, keeps the local store of
/// raw headers, detects reorganizations, hands out the downloader and the
/// parser, and owns the committed chain-state that `process_block`
/// advances.
///
/// Ghost state: `canonical_chain` is the committed canonical chain
/// itself, one header per height starting at the chain's first block —
/// `process_block` appends to it, an invalidation truncates it, and
/// `read_burnchain_headers` returns slices of it; `commit_log` records
/// every block successfully handed to `process_block`, in call order,
/// across rounds, and is never truncated; `reported_ancestor` holds the
/// answer of the last reorganization check.
pub trait BurnchainIndexer: Sized {
    type D: BurnchainBlockDownloader;

    type P: BurnchainBlockParser;

    /// The implementation's own well-formedness; established by its
    /// constructors and preserved by every method here.
    spec fn inv(&self) -> bool;

    /// Height of the chain's first block.
    spec fn first_height(&self) -> u64;

    /// Every block successfully committed through `process_block`, in
    /// call order.
    spec fn commit_log(&self) -> Seq<BurnchainBlockHeader>;

    /// The committed canonical chain, one header per height, starting at
    /// the chain's first block.
    spec fn canonical_chain(&self) -> Seq<BurnchainBlockHeader>;

    /// The common-ancestor height the last reorganization check
    /// reported, if one was ever made.
    spec fn reported_ancestor(&self) -> Option<u64>;

    /// One past the height of the committed canonical tip — always
    /// `first_height` plus the canonical chain's length; equals
    /// `first_height` while nothing is committed.
    spec fn db_height(&self) -> u64;

    /// Connect to the source chain. Idempotent; a no-op when already
    /// connected. Changes no committed state.
    fn connect(&mut self) -> (r: Result<(), BurnchainError>)
        requires
            old(self).inv(),
        ensures
            final(self).inv(),
            final(self).first_height() == old(self).first_height(),
            final(self).commit_log() == old(self).commit_log(),
            final(self).canonical_chain() == old(self).canonical_chain(),
            final(self).db_height() == old(self).db_height(),
            final(self).reported_ancestor() == old(self).reported_ancestor(),
    ;

    /// Height of the chain's first block.
    fn get_first_block_height(&self) -> (r: u64)
        requires
            self.inv(),
        ensures
            r == self.first_height(),
    ;

    /// Hash of the chain's first block.
    fn get_first_block_header_hash(&self) -> (r: Result<BurnchainHeaderHash, BurnchainError>)
        requires
            self.inv(),
    ;

    /// Timestamp of the chain's first block.
    fn get_first_block_header_timestamp(&self) -> (r: Result<u64, BurnchainError>)
        requires
            self.inv(),
    ;

    /// Height up to which raw headers are stored locally.
    fn get_headers_height(&self) -> (r: Result<u64, BurnchainError>)
        requires
            self.inv(),
    ;

    /// Highest header height the source chain reports.
    fn get_highest_header_height(&self) -> (r: Result<u64, BurnchainError>)
        requires
            self.inv(),
    ;

    /// Advance the local raw-header store from `start_height` towards
    /// `end_height` (or as far as the source chain goes when `None`),
    /// returning the new highest stored header height. May perform
    /// network I/O; fails with a download-class error. Changes no
    /// committed state.
    fn sync_headers(&mut self, start_height: u64, end_height: Option<u64>) -> (r: Result<
        u64,
        BurnchainError,
    >)
        requires
            old(self).inv(),
        ensures
            final(self).inv(),
            final(self).first_height() == old(self).first_height(),
            final(self).commit_log() == old(self).commit_log(),
            final(self).canonical_chain() == old(self).canonical_chain(),
            final(self).db_height() == old(self).db_height(),
            final(self).reported_ancestor() == old(self).reported_ancestor(),
    ;

    /// Find the height of the common ancestor between the previously
    /// recorded local tip and the freshly synced headers. When there is
    /// no reorganization this is the local tip itself; it is never below
    /// the chain's first block. The answer is recorded; committed state
    /// does not change.
    fn find_chain_reorg(&mut self) -> (r: Result<u64, BurnchainError>)
        requires
            old(self).inv(),
        ensures
            final(self).inv(),
            final(self).first_height() == old(self).first_height(),
            final(self).commit_log() == old(self).commit_log(),
            final(self).canonical_chain() == old(self).canonical_chain(),
            final(self).db_height() == old(self).db_height(),
            r matches Ok(a) ==> old(self).first_height() <= a && final(self).reported_ancestor()
                == Some(a),
    ;

    /// Invalidate headers and committed state above `new_height`: after
    /// success the committed canonical chain is cut back so that the
    /// block at `new_height` is its tip. The record of past commits is
    /// retained.
    fn drop_headers(&mut self, new_height: u64) -> (r: Result<(), BurnchainError>)
        requires
            old(self).inv(),
            old(self).first_height() <= new_height,
            new_height < old(self).db_height(),
        ensures
            final(self).inv(),
            final(self).first_height() == old(self).first_height(),
            final(self).commit_log() == old(self).commit_log(),
            final(self).reported_ancestor() == old(self).reported_ancestor(),
            r matches Ok(_) ==> {
                &&& final(self).db_height() == new_height + 1
                &&& final(self).canonical_chain() == old(self).canonical_chain().subrange(
                    0,
                    new_height + 1 - old(self).first_height(),
                )
            },
            r matches Err(_) ==> {
                &&& final(self).db_height() == old(self).db_height()
                &&& final(self).canonical_chain() == old(self).canonical_chain()
            },
    ;

    /// One past the height of the committed canonical tip.
    fn get_burnchain_headers_height(&self) -> (r: Result<u64, BurnchainError>)
        requires
            self.inv(),
        ensures
            r matches Ok(h) ==> h == self.db_height() && self.first_height() <= self.db_height()
                && self.db_height() as int == self.first_height() + self.canonical_chain().len(),
    ;

    /// Read up to `max_count` committed canonical headers starting at
    /// `start_height`: the corresponding slice of the canonical chain
    /// itself, complete and in ascending height order.
    fn read_burnchain_headers(&self, start_height: u64, max_count: u64) -> (r: Result<
        Vec<BurnchainBlockHeader>,
        BurnchainError,
    >)
        requires
            self.inv(),
            self.first_height() <= start_height,
            start_height < self.db_height(),
        ensures
            r matches Ok(v) ==> {
                &&& v@.len() == if max_count as int <= self.db_height() - start_height {
                    max_count as int
                } else {
                    self.db_height() - start_height
                }
                &&& forall|i: int|
                    0 <= i < v@.len() ==> #[trigger] v@[i].block_height as int == start_height + i
                &&& v@ == self.canonical_chain().subrange(
                    start_height - self.first_height(),
                    start_height - self.first_height() + v@.len(),
                )
            },
    ;

    /// Read the stored raw headers with heights in
    /// `[start_block, end_block)`: a contiguous ascending run starting at
    /// `start_block`, possibly shorter than asked when the store ends.
    fn read_headers(&self, start_block: u64, end_block: u64) -> (r: Result<
        Vec<HeaderIPC>,
        BurnchainError,
    >)
        requires
            self.inv(),
            self.first_height() <= start_block,
            start_block <= end_block,
        ensures
            r matches Ok(v) ==> {
                &&& v@.len() <= end_block - start_block
                &&& forall|i: int|
                    0 <= i < v@.len() ==> #[trigger] v@[i].height as int == start_block + i
            },
    ;

    /// The downloader bound to this indexer's block representation.
    fn downloader(&self) -> (r: Self::D)
        requires
            self.inv(),
    ;

    /// The parser bound to this indexer's block representation.
    fn parser(&self) -> (r: Self::P)
        requires
            self.inv(),
    ;

    /// The protocol-epoch table the parse stage consults.
    fn get_stacks_epochs(&self) -> (r: EpochList)
        requires
            self.inv(),
    ;

    /// Commit one parsed block's derived state. The pipeline commits in
    /// strict height order: the block must sit exactly on top of the
    /// committed canonical tip. On success the tip advances by one and
    /// the commit is recorded; on failure nothing changes.
    fn process_block(&mut self, block: &BurnchainBlockData) -> (r: Result<(), BurnchainError>)
        requires
            old(self).inv(),
            block.header.block_height == old(self).db_height(),
            block.header.block_height < u64::MAX,
        ensures
            final(self).inv(),
            final(self).first_height() == old(self).first_height(),
            final(self).reported_ancestor() == old(self).reported_ancestor(),
            r matches Ok(_) ==> {
                &&& final(self).commit_log() == old(self).commit_log().push(block.header)
                &&& final(self).canonical_chain() == old(self).canonical_chain().push(
                    block.header,
                )
                &&& final(self).db_height() == old(self).db_height() + 1
            },
            r matches Err(_) ==> {
                &&& final(self).commit_log() == old(self).commit_log()
                &&& final(self).canonical_chain() == old(self).canonical_chain()
                &&& final(self).db_height() == old(self).db_height()
            },
    ;
}

} // verus!
