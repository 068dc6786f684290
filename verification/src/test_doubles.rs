//! In-memory implementations of the collaborator interfaces, with
//! failure injection: a canned-chain indexer, a downloader and parser
//! that can be told to fail at one height, a counting coordinator
//! channel, and a fixed cancellation flag. They prove the interface
//! contracts and let tests drive whole synchronization rounds without a
//! real source chain.

use vstd::prelude::*;

use crate::coordinator::{CoordinatorChannels, KeepRunningFlag};
use crate::epochs::{EpochList, StacksEpoch, StacksEpochId, STACKS_EPOCH_MAX};
use crate::errors::BurnchainError;
use crate::indexer::{BurnchainBlockDownloader, BurnchainBlockParser, BurnchainIndexer};
use crate::types::{
    BitcoinBlock, BlockIPC, BurnchainBlock, BurnchainBlockData, BurnchainBlockHeader,
    BurnchainHeaderHash, HeaderIPC,
};

verus! {

/// Canned block data a test chain is built from.
pub struct StubBlock {
    pub height: u64,
    pub hash: BurnchainHeaderHash,
}

impl StubBlock {
    pub fn new(height: u64, hash: BurnchainHeaderHash) -> (r: StubBlock)
        ensures
            r.height == height,
            r.hash == hash,
    {
        StubBlock { height, hash }
    }

    /// The stage-local header record for this block.
    pub fn to_ipc_header(&self) -> (r: HeaderIPC)
        ensures
            r.height == self.height,
            r.hash == self.hash.0,
    {
        HeaderIPC { height: self.height, hash: self.hash.0 }
    }

    /// The full header for this block.
    pub fn to_header(&self) -> (r: BurnchainBlockHeader)
        ensures
            r.block_height == self.height,
            r.block_hash == self.hash,
    {
        BurnchainBlockHeader {
            block_height: self.height,
            block_hash: self.hash,
            parent_block_hash: BurnchainHeaderHash::zero(),
            num_txs: 0,
            timestamp: 0,
        }
    }
}

/// A downloader over nothing: echoes each header back as an empty-payload
/// block, or fails with a download error at one injected height.
pub struct MockDownloader {
    pub fail_at_height: Option<u64>,
}

impl BurnchainBlockDownloader for MockDownloader {
    fn download(&mut self, header: &HeaderIPC) -> (r: Result<BlockIPC, BurnchainError>) {
        match self.fail_at_height {
            Some(h) if h == header.height => Err(BurnchainError::DownloadError),
            _ => Ok(BlockIPC { header: *header, payload: Vec::new() }),
        }
    }
}

/// A parser over nothing: decodes each fetched block into an empty block
/// claiming the fetched header's height and hash, or fails with a parse
/// error at one injected height.
pub struct MockBlockParser {
    pub fail_at_height: Option<u64>,
}

impl BurnchainBlockParser for MockBlockParser {
    fn parse(&mut self, block: &BlockIPC, _epoch_id: StacksEpochId) -> (r: Result<
        BurnchainBlock,
        BurnchainError,
    >) {
        match self.fail_at_height {
            Some(h) if h == block.header.height => Err(BurnchainError::ParseError),
            _ => Ok(
                BurnchainBlock::Bitcoin(
                    BitcoinBlock {
                        block_height: block.header.height,
                        block_hash: BurnchainHeaderHash(block.header.hash),
                        parent_block_hash: BurnchainHeaderHash::zero(),
                        txs: Vec::new(),
                        timestamp: 0,
                    },
                ),
            ),
        }
    }
}

/// An in-memory indexer over a canned chain of raw headers, with
/// injectable failures for every pipeline stage. Its committed chain
/// starts empty and grows only through `process_block`.
pub struct MockBurnchainIndexer {
    pub first_block_height: u64,
    pub first_block_hash: BurnchainHeaderHash,
    pub first_block_timestamp: u64,
    /// The canned raw-header store, contiguous from the first height.
    pub headers: Vec<HeaderIPC>,
    /// The committed canonical chain, contiguous from the first height.
    pub chain: Vec<BurnchainBlockHeader>,
    /// Every successful `process_block` call, in order.
    pub processed: Vec<BurnchainBlockHeader>,
    /// What `get_highest_header_height` reports.
    pub remote_height: u64,
    pub fail_download_at_height: Option<u64>,
    pub fail_parse_at_height: Option<u64>,
    pub fail_process_at_height: Option<u64>,
    pub fail_sync_headers: bool,
    /// A reorganization to report once: the common ancestor height. It
    /// is cleared when reported, as a real reorganization is noticed
    /// once and the chain adapts.
    pub reorg_ancestor: Option<u64>,
    /// The answer of the last reorganization check.
    pub reorg_reported: Ghost<Option<u64>>,
}

impl MockBurnchainIndexer {
    /// An indexer over the given raw headers, which must sit contiguously
    /// on the first height, with no failures injected.
    pub fn new(
        first_block_height: u64,
        first_block_hash: BurnchainHeaderHash,
        headers: Vec<HeaderIPC>,
    ) -> (r: MockBurnchainIndexer)
        requires
            forall|i: int|
                0 <= i < headers@.len() ==> #[trigger] headers@[i].height as int
                    == first_block_height + i,
            first_block_height + headers@.len() <= u64::MAX,
        ensures
            r.inv(),
            r.first_height() == first_block_height,
            r.commit_log() == Seq::<BurnchainBlockHeader>::empty(),
            r.db_height() == first_block_height,
            r.headers == headers,
            r.remote_height == first_block_height,
            r.fail_download_at_height is None,
            r.fail_parse_at_height is None,
            r.fail_process_at_height is None,
            r.fail_sync_headers == false,
            r.reorg_ancestor is None,
            r.canonical_chain() == Seq::<BurnchainBlockHeader>::empty(),
            r.reported_ancestor() is None,
    {
        MockBurnchainIndexer {
            first_block_height,
            first_block_hash,
            first_block_timestamp: 0,
            headers,
            chain: Vec::new(),
            processed: Vec::new(),
            remote_height: first_block_height,
            fail_download_at_height: None,
            fail_parse_at_height: None,
            fail_process_at_height: None,
            fail_sync_headers: false,
            reorg_ancestor: None,
            reorg_reported: Ghost(None),
        }
    }

    /// Heights of every committed block, in commit order; what a test
    /// inspects to check the ordering of `process_block` calls.
    pub fn processed_heights(&self) -> (r: Vec<u64>)
        ensures
            r@.len() == self.commit_log().len(),
            forall|i: int|
                0 <= i < r@.len() ==> #[trigger] r@[i] == self.commit_log()[i].block_height,
    {
        let mut out: Vec<u64> = Vec::new();
        let n: usize = self.processed.len();
        let mut i: usize = 0;
        while i < n
            invariant
                i <= n,
                n == self.processed@.len(),
                out@.len() == i,
                forall|j: int|
                    0 <= j < i ==> #[trigger] out@[j] == self.processed@[j].block_height,
            decreases n - i,
        {
            out.push(self.processed[i].block_height);
            i = i + 1;
        }
        out
    }
}

impl BurnchainIndexer for MockBurnchainIndexer {
    type D = MockDownloader;

    type P = MockBlockParser;

    open spec fn inv(&self) -> bool {
        &&& forall|i: int|
            0 <= i < self.headers@.len() ==> #[trigger] self.headers@[i].height as int
                == self.first_block_height + i
        &&& forall|i: int|
            0 <= i < self.chain@.len() ==> #[trigger] self.chain@[i].block_height as int
                == self.first_block_height + i
        &&& self.first_block_height + self.headers@.len() <= u64::MAX
        &&& self.first_block_height + self.chain@.len() <= u64::MAX
    }

    open spec fn first_height(&self) -> u64 {
        self.first_block_height
    }

    open spec fn commit_log(&self) -> Seq<BurnchainBlockHeader> {
        self.processed@
    }

    open spec fn canonical_chain(&self) -> Seq<BurnchainBlockHeader> {
        self.chain@
    }

    open spec fn db_height(&self) -> u64 {
        (self.first_block_height + self.chain@.len()) as u64
    }

    open spec fn reported_ancestor(&self) -> Option<u64> {
        self.reorg_reported@
    }

    fn connect(&mut self) -> (r: Result<(), BurnchainError>) {
        Ok(())
    }

    fn get_first_block_height(&self) -> (r: u64) {
        self.first_block_height
    }

    fn get_first_block_header_hash(&self) -> (r: Result<BurnchainHeaderHash, BurnchainError>) {
        Ok(self.first_block_hash)
    }

    fn get_first_block_header_timestamp(&self) -> (r: Result<u64, BurnchainError>) {
        Ok(self.first_block_timestamp)
    }

    fn get_headers_height(&self) -> (r: Result<u64, BurnchainError>) {
        let n: usize = self.headers.len();
        if n == 0 {
            Ok(self.first_block_height)
        } else {
            Ok(self.headers[n - 1].height)
        }
    }

    fn get_highest_header_height(&self) -> (r: Result<u64, BurnchainError>) {
        Ok(self.remote_height)
    }

    fn sync_headers(&mut self, _start_height: u64, _end_height: Option<u64>) -> (r: Result<
        u64,
        BurnchainError,
    >) {
        if self.fail_sync_headers {
            Err(BurnchainError::DownloadError)
        } else {
            let n: usize = self.headers.len();
            if n == 0 {
                Ok(self.first_block_height)
            } else {
                Ok(self.headers[n - 1].height)
            }
        }
    }

    fn find_chain_reorg(&mut self) -> (r: Result<u64, BurnchainError>) {
        let ancestor: u64 = match self.reorg_ancestor {
            Some(a) => {
                if a < self.first_block_height {
                    self.first_block_height
                } else {
                    a
                }
            },
            None => {
                // no reorganization: the common ancestor is the local tip
                let n: usize = self.chain.len();
                if n == 0 {
                    self.first_block_height
                } else {
                    self.chain[n - 1].block_height
                }
            },
        };
        // an injected reorganization is noticed once
        self.reorg_ancestor = None;
        proof {
            self.reorg_reported@ = Some(ancestor);
        }
        Ok(ancestor)
    }

    fn drop_headers(&mut self, new_height: u64) -> (r: Result<(), BurnchainError>) {
        let n: usize = self.chain.len();
        let offset: u64 = new_height - self.first_block_height;
        proof {
            assert(offset < n);
        }
        let keep: usize = (offset as usize) + 1;
        proof {
            assert(self.chain@ =~= old(self).chain@.subrange(0, self.chain@.len() as int));
        }
        while self.chain.len() > keep
            invariant
                keep <= self.chain@.len(),
                self.inv(),
                keep == new_height - self.first_block_height + 1,
                self.first_block_height == old(self).first_block_height,
                self.processed == old(self).processed,
                self.reorg_reported == old(self).reorg_reported,
                self.chain@.len() <= old(self).chain@.len(),
                self.chain@ == old(self).chain@.subrange(0, self.chain@.len() as int),
            decreases self.chain@.len(),
        {
            self.chain.pop();
            proof {
                assert(self.chain@ =~= old(self).chain@.subrange(0, self.chain@.len() as int));
            }
        }
        Ok(())
    }

    fn get_burnchain_headers_height(&self) -> (r: Result<u64, BurnchainError>) {
        Ok(self.first_block_height + (self.chain.len() as u64))
    }

    fn read_burnchain_headers(&self, start_height: u64, max_count: u64) -> (r: Result<
        Vec<BurnchainBlockHeader>,
        BurnchainError,
    >) {
        let n: usize = self.chain.len();
        let avail: u64 = self.first_block_height + (n as u64) - start_height;
        proof {
            assert(avail <= n);
        }
        let want: usize = if max_count <= avail {
            max_count as usize
        } else {
            avail as usize
        };
        let lo: usize = (start_height - self.first_block_height) as usize;
        let mut out: Vec<BurnchainBlockHeader> = Vec::new();
        let mut i: usize = 0;
        while i < want
            invariant
                i <= want,
                lo == start_height - self.first_block_height,
                lo + want <= self.chain@.len(),
                self.chain@.len() <= usize::MAX,
                self.inv(),
                out@.len() == i,
                forall|j: int|
                    0 <= j < i ==> #[trigger] out@[j].block_height as int == start_height + j,
                forall|j: int| 0 <= j < i ==> #[trigger] out@[j] == self.chain@[lo + j],
            decreases want - i,
        {
            out.push(self.chain[lo + i]);
            i = i + 1;
        }
        proof {
            assert(out@ =~= self.chain@.subrange(lo as int, lo + want as int));
        }
        Ok(out)
    }

    fn read_headers(&self, start_block: u64, end_block: u64) -> (r: Result<
        Vec<HeaderIPC>,
        BurnchainError,
    >) {
        let n: usize = self.headers.len();
        let stored_end: u64 = self.first_block_height + (n as u64);
        if start_block >= stored_end {
            return Ok(Vec::new());
        }
        let cap: u64 = if end_block <= stored_end {
            end_block
        } else {
            stored_end
        };
        proof {
            assert(cap - start_block <= n);
        }
        let lo: usize = (start_block - self.first_block_height) as usize;
        let want: usize = (cap - start_block) as usize;
        let mut out: Vec<HeaderIPC> = Vec::new();
        let mut i: usize = 0;
        while i < want
            invariant
                i <= want,
                lo == start_block - self.first_block_height,
                lo + want <= self.headers@.len(),
                self.headers@.len() <= usize::MAX,
                self.inv(),
                out@.len() == i,
                forall|j: int| 0 <= j < i ==> #[trigger] out@[j].height as int == start_block + j,
            decreases want - i,
        {
            out.push(self.headers[lo + i]);
            i = i + 1;
        }
        Ok(out)
    }

    fn downloader(&self) -> (r: MockDownloader) {
        MockDownloader { fail_at_height: self.fail_download_at_height }
    }

    fn parser(&self) -> (r: MockBlockParser) {
        MockBlockParser { fail_at_height: self.fail_parse_at_height }
    }

    fn get_stacks_epochs(&self) -> (r: EpochList) {
        let mut epochs: Vec<StacksEpoch> = Vec::new();
        epochs.push(
            StacksEpoch {
                epoch_id: StacksEpochId::Epoch20,
                start_height: 0,
                end_height: STACKS_EPOCH_MAX,
            },
        );
        EpochList::new(epochs)
    }

    fn process_block(&mut self, block: &BurnchainBlockData) -> (r: Result<(), BurnchainError>) {
        match self.fail_process_at_height {
            Some(h) if h == block.header.block_height => Err(BurnchainError::DBError),
            _ => {
                self.chain.push(block.header);
                self.processed.push(block.header);
                Ok(())
            },
        }
    }
}

/// A coordinator channel that counts the announcements it delivers; a
/// closed one delivers nothing and reports itself dead.
pub struct CountingCoordinator {
    pub count: u64,
    pub closed: bool,
    pub delivered: Ghost<nat>,
}

impl CountingCoordinator {
    /// The visible counter mirrors the delivered signals until it
    /// saturates; the ghost count keeps counting past that.
    pub open spec fn wf(&self) -> bool {
        &&& self.count <= self.delivered@
        &&& (self.count < u64::MAX ==> self.count == self.delivered@)
    }

    pub fn new() -> (r: CountingCoordinator)
        ensures
            r.count == 0,
            !r.closed,
            r.signals() == 0,
            r.wf(),
    {
        CountingCoordinator { count: 0, closed: false, delivered: Ghost(0nat) }
    }

    /// A channel whose receiving side is already gone.
    pub fn new_closed() -> (r: CountingCoordinator)
        ensures
            r.count == 0,
            r.closed,
            r.signals() == 0,
            r.wf(),
    {
        CountingCoordinator { count: 0, closed: true, delivered: Ghost(0nat) }
    }
}

impl CoordinatorChannels for CountingCoordinator {
    open spec fn signals(&self) -> nat {
        self.delivered@
    }

    fn announce_new_burn_block(&mut self) -> (alive: bool)
        ensures
            alive == !old(self).closed,
            final(self).closed == old(self).closed,
            old(self).wf() ==> final(self).wf(),
    {
        if self.closed {
            false
        } else {
            proof {
                self.delivered@ = self.delivered@ + 1;
            }
            if self.count < u64::MAX {
                self.count = self.count + 1;
            }
            true
        }
    }
}

/// A cancellation flag with a fixed answer: it can stop exactly when
/// that answer is `false`.
pub struct FixedKeepRunning {
    pub value: bool,
}

impl KeepRunningFlag for FixedKeepRunning {
    open spec fn may_stop(&self) -> bool {
        !self.value
    }

    fn keep_running(&self) -> (r: bool) {
        self.value
    }
}

} // verus!
