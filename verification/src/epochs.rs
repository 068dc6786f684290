//! Protocol epochs: named ranges of block heights during which a fixed set
//! of parsing rules applies. The parse stage selects the epoch active at
//! each block's height.

use vstd::prelude::*;

verus! {

/// A height that no epoch outlasts: epochs that never end use this as
/// their end height.
pub const STACKS_EPOCH_MAX: u64 = u64::MAX;

/// Identifies one set of protocol rules.
#[derive(Clone, Copy, Debug, PartialEq, Eq, Structural)]
pub enum StacksEpochId {
    Epoch10,
    Epoch20,
    Epoch2_05,
    Epoch21,
    Epoch22,
    Epoch23,
    Epoch24,
    Epoch25,
    Epoch30,
}

/// One epoch: its rules apply to heights in `[start_height, end_height)`.
#[derive(Clone, Copy, Debug)]
pub struct StacksEpoch {
    pub epoch_id: StacksEpochId,
    pub start_height: u64,
    pub end_height: u64,
}

impl StacksEpoch {
    /// Whether this epoch's rules apply at `height`.
    pub open spec fn applies_at(self, height: u64) -> bool {
        self.start_height <= height < self.end_height
    }
}

/// The epoch table consulted by the parse stage.
#[derive(Debug)]
pub struct EpochList(pub Vec<StacksEpoch>);

/// The identifier of the first epoch in `eps` that applies at `height`,
/// or `None` when no listed epoch covers that height.
pub open spec fn spec_epoch_id_at(eps: Seq<StacksEpoch>, height: u64) -> Option<StacksEpochId>
    decreases eps.len(),
{
    if eps.len() == 0 {
        None
    } else if eps[0].applies_at(height) {
        Some(eps[0].epoch_id)
    } else {
        spec_epoch_id_at(eps.drop_first(), height)
    }
}

impl EpochList {
    pub fn new(epochs: Vec<StacksEpoch>) -> (r: EpochList)
        ensures
            r.0@ == epochs@,
    {
        EpochList(epochs)
    }

    /// Looks up the epoch active at `height`: the first listed epoch whose
    /// `[start_height, end_height)` range contains it.
    pub fn epoch_id_at(&self, height: u64) -> (r: Option<StacksEpochId>)
        ensures
            r == spec_epoch_id_at(self.0@, height),
    {
        let n: usize = self.0.len();
        let mut i: usize = 0;
        proof {
            assert(self.0@.skip(0) =~= self.0@);
        }
        while i < n
            invariant
                0 <= i <= n,
                n == self.0@.len(),
                spec_epoch_id_at(self.0@, height) == spec_epoch_id_at(self.0@.skip(i as int), height),
            decreases n - i,
        {
            let ep = self.0[i];
            proof {
                assert(self.0@.skip(i as int)[0] == self.0@[i as int]);
                assert(self.0@.skip(i as int).drop_first() =~= self.0@.skip(i + 1));
            }
            if ep.start_height <= height && height < ep.end_height {
                return Some(ep.epoch_id);
            }
            i = i + 1;
        }
        proof {
            assert(self.0@.skip(n as int).len() == 0);
        }
        None
    }
}

} // verus!
