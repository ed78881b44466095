//! The states of a merge proposal, and proposal counts keyed by them.

use crate::bucket_counts::BucketCounts;
use vstd::prelude::*;

verus! {

/// The state that a merge proposal is in.
#[derive(Clone, Copy, Debug, PartialEq, Eq, Hash, Structural)]
pub enum MergeProposalStatus {
    Open,
    Closed,
    Merged,
    Applied,
    Abandoned,
    Rejected,
}

/// The number of proposals per bucket, for each status that has been counted.
#[derive(Debug)]
pub struct MergeProposalCounts {
    open: Option<BucketCounts>,
    closed: Option<BucketCounts>,
    merged: Option<BucketCounts>,
    applied: Option<BucketCounts>,
    abandoned: Option<BucketCounts>,
    rejected: Option<BucketCounts>,
}

impl View for MergeProposalCounts {
    type V = Map<MergeProposalStatus, Map<Seq<char>, usize>>;

    /// The counts per bucket of every status that has been counted.
    closed spec fn view(&self) -> Map<MergeProposalStatus, Map<Seq<char>, usize>> {
        Map::new(
            |status: MergeProposalStatus| self.of(status) is Some,
            |status: MergeProposalStatus| self.of(status).unwrap()@,
        )
    }
}

impl MergeProposalCounts {
    spec fn of(&self, status: MergeProposalStatus) -> Option<BucketCounts> {
        match status {
            MergeProposalStatus::Open => self.open,
            MergeProposalStatus::Closed => self.closed,
            MergeProposalStatus::Merged => self.merged,
            MergeProposalStatus::Applied => self.applied,
            MergeProposalStatus::Abandoned => self.abandoned,
            MergeProposalStatus::Rejected => self.rejected,
        }
    }

    /// Counts for no status at all.
    pub fn new() -> (r: Self)
        ensures
            r@ == Map::<MergeProposalStatus, Map<Seq<char>, usize>>::empty(),
    {
        let r = MergeProposalCounts {
            open: None,
            closed: None,
            merged: None,
            applied: None,
            abandoned: None,
            rejected: None,
        };
        assert(r@ =~= Map::<MergeProposalStatus, Map<Seq<char>, usize>>::empty());
        r
    }

    /// Sets the counts of `status`, replacing those it had.
    pub fn insert(&mut self, status: MergeProposalStatus, counts: BucketCounts)
        ensures
            final(self)@ == old(self)@.insert(status, counts@),
    {
        match status {
            MergeProposalStatus::Open => {
                self.open = Some(counts);
            },
            MergeProposalStatus::Closed => {
                self.closed = Some(counts);
            },
            MergeProposalStatus::Merged => {
                self.merged = Some(counts);
            },
            MergeProposalStatus::Applied => {
                self.applied = Some(counts);
            },
            MergeProposalStatus::Abandoned => {
                self.abandoned = Some(counts);
            },
            MergeProposalStatus::Rejected => {
                self.rejected = Some(counts);
            },
        }
        assert(self@ =~= old(self)@.insert(status, counts@));
    }

    /// The counts of `status`, if it has been counted.
    pub fn get(&self, status: MergeProposalStatus) -> (r: Option<&BucketCounts>)
        ensures
            match r {
                Some(counts) => self@.contains_key(status) && self@[status] == counts@,
                None => !self@.contains_key(status),
            },
    {
        match status {
            MergeProposalStatus::Open => self.open.as_ref(),
            MergeProposalStatus::Closed => self.closed.as_ref(),
            MergeProposalStatus::Merged => self.merged.as_ref(),
            MergeProposalStatus::Applied => self.applied.as_ref(),
            MergeProposalStatus::Abandoned => self.abandoned.as_ref(),
            MergeProposalStatus::Rejected => self.rejected.as_ref(),
        }
    }
}

} // verus!
