//! Data model of the synchronization core: block headers, the lightweight
//! records the pipeline stages exchange, and the committed block form.

use vstd::prelude::*;

verus! {

/// A block hash of the external source chain, 32 bytes.
#[derive(Clone, Copy, Debug)]
pub struct BurnchainHeaderHash(pub [u8; 32]);

impl BurnchainHeaderHash {
    /// The all-zero hash, used as the parent of the first block.
    pub fn zero() -> (r: BurnchainHeaderHash)
        ensures
            forall|i: int| 0 <= i < 32 ==> r.0@[i] == 0u8,
    {
        BurnchainHeaderHash([0u8; 32])
    }

    /// A deterministic hash for tests: the value in big-endian order in
    /// the last eight bytes, zeroes elsewhere.
    pub fn from_test_data(value: u64) -> (r: BurnchainHeaderHash)
        ensures
            forall|i: int| 0 <= i < 24 ==> r.0@[i] == 0u8,
            r.0@[24] as u64 == (value >> 56u64) % 256,
            r.0@[25] as u64 == (value >> 48u64) % 256,
            r.0@[26] as u64 == (value >> 40u64) % 256,
            r.0@[27] as u64 == (value >> 32u64) % 256,
            r.0@[28] as u64 == (value >> 24u64) % 256,
            r.0@[29] as u64 == (value >> 16u64) % 256,
            r.0@[30] as u64 == (value >> 8u64) % 256,
            r.0@[31] as u64 == value % 256,
    {
        let b0: u8 = (value % 256) as u8;
        let b1: u8 = ((value >> 8u64) % 256) as u8;
        let b2: u8 = ((value >> 16u64) % 256) as u8;
        let b3: u8 = ((value >> 24u64) % 256) as u8;
        let b4: u8 = ((value >> 32u64) % 256) as u8;
        let b5: u8 = ((value >> 40u64) % 256) as u8;
        let b6: u8 = ((value >> 48u64) % 256) as u8;
        let b7: u8 = ((value >> 56u64) % 256) as u8;
        BurnchainHeaderHash(
            [
                0, 0, 0, 0, 0, 0, 0, 0, 0, 0, 0, 0, 0, 0, 0, 0, 0, 0, 0, 0, 0, 0, 0, 0, b7, b6,
                b5, b4, b3, b2, b1, b0,
            ],
        )
    }
}

/// A full header of a source-chain block, as persisted locally.
/// Immutable once read; ordered by height.
#[derive(Clone, Copy, Debug)]
pub struct BurnchainBlockHeader {
    pub block_height: u64,
    pub block_hash: BurnchainHeaderHash,
    pub parent_block_hash: BurnchainHeaderHash,
    pub num_txs: u32,
    pub timestamp: u64,
}

/// The minimal header record passed across pipeline stages, decoupled from
/// the full header so the download stage stays lightweight.
#[derive(Clone, Copy, Debug)]
pub struct HeaderIPC {
    pub height: u64,
    pub hash: [u8; 32],
}

/// A raw fetched block, before parsing: the header it was fetched for and
/// the undecoded payload.
#[derive(Debug)]
pub struct BlockIPC {
    pub header: HeaderIPC,
    pub payload: Vec<u8>,
}

/// One operation recognized in a block by the parser; opaque to the
/// orchestrator, which only moves it to the commit stage.
#[derive(Debug)]
pub struct BlockstackOperation {
    pub opcode: u8,
    pub data: Vec<u8>,
}

/// A decoded source-chain block, as produced by the block parser.
#[derive(Debug)]
pub enum BurnchainBlock {
    Bitcoin(BitcoinBlock),
}

/// A decoded block of the bitcoin-style source chain.
#[derive(Debug)]
pub struct BitcoinBlock {
    pub block_height: u64,
    pub block_hash: BurnchainHeaderHash,
    pub parent_block_hash: BurnchainHeaderHash,
    pub txs: Vec<BlockstackOperation>,
    pub timestamp: u64,
}

/// What gets committed to chain-state: the block's header and the
/// operations decoded from it.
#[derive(Debug)]
pub struct BurnchainBlockData {
    pub header: BurnchainBlockHeader,
    pub ops: Vec<BlockstackOperation>,
}

impl BurnchainBlock {
    /// A decoded block is well formed when its operation count fits the
    /// header's transaction-count field.
    pub open spec fn wf(self) -> bool {
        match self {
            BurnchainBlock::Bitcoin(b) => b.txs@.len() <= u32::MAX,
        }
    }

    /// The height the decoded block claims.
    pub open spec fn spec_height(self) -> u64 {
        match self {
            BurnchainBlock::Bitcoin(b) => b.block_height,
        }
    }

    /// The hash the decoded block claims.
    pub open spec fn spec_hash(self) -> BurnchainHeaderHash {
        match self {
            BurnchainBlock::Bitcoin(b) => b.block_hash,
        }
    }

    /// The header summarizing the decoded block.
    pub open spec fn spec_header(self) -> BurnchainBlockHeader {
        match self {
            BurnchainBlock::Bitcoin(b) => BurnchainBlockHeader {
                block_height: b.block_height,
                block_hash: b.block_hash,
                parent_block_hash: b.parent_block_hash,
                num_txs: b.txs@.len() as u32,
                timestamp: b.timestamp,
            },
        }
    }

    /// Builds the header summarizing this decoded block.
    pub fn header(&self) -> (r: BurnchainBlockHeader)
        requires
            self.wf(),
        ensures
            r == self.spec_header(),
    {
        match self {
            BurnchainBlock::Bitcoin(b) => BurnchainBlockHeader {
                block_height: b.block_height,
                block_hash: b.block_hash,
                parent_block_hash: b.parent_block_hash,
                num_txs: b.txs.len() as u32,
                timestamp: b.timestamp,
            },
        }
    }

    /// Turns the decoded block into the form the commit stage hands to
    /// chain-state: its header together with its decoded operations.
    pub fn into_block_data(self) -> (r: BurnchainBlockData)
        requires
            self.wf(),
        ensures
            r.header == self.spec_header(),
            r.ops@ == (match self {
                BurnchainBlock::Bitcoin(b) => b.txs@,
            }),
    {
        let header = self.header();
        match self {
            BurnchainBlock::Bitcoin(b) => BurnchainBlockData { header, ops: b.txs },
        }
    }
}

} // verus!
