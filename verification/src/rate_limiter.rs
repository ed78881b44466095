//! Admission control for merge proposals: how many may be open per bucket.
//!
//! A limiter is refreshed from a count of the proposals per status and bucket,
//! answers whether a bucket may take one more proposal, and counts the proposals
//! that are opened between two refreshes.

use crate::bucket_counts::BucketCounts;
use crate::publish::{MergeProposalCounts, MergeProposalStatus};
use crate::text::{decimal, decimal_text};
use vstd::prelude::*;

verus! {

/// The answer to an admission check.
#[derive(Debug)]
pub enum RateLimitStatus {
    /// The bucket may take one more proposal.
    Allowed,
    /// Nothing is known yet, so nothing is admitted.
    RateLimited,
    /// The bucket holds more open proposals than its cap.
    BucketRateLimited { bucket: String, open_mps: usize, max_open_mps: usize },
}

/// What a `RateLimitStatus` says, with the bucket's name as a sequence of characters.
pub enum Admission {
    Allowed,
    RateLimited,
    BucketRateLimited { bucket: Seq<char>, open_mps: usize, max_open_mps: usize },
}

impl View for RateLimitStatus {
    type V = Admission;

    open spec fn view(&self) -> Admission {
        match self {
            RateLimitStatus::Allowed => Admission::Allowed,
            RateLimitStatus::RateLimited => Admission::RateLimited,
            RateLimitStatus::BucketRateLimited { bucket, open_mps, max_open_mps } => {
                Admission::BucketRateLimited {
                    bucket: bucket@,
                    open_mps: *open_mps,
                    max_open_mps: *max_open_mps,
                }
            },
        }
    }
}

/// The text that `RateLimitStatus::to_string` gives for `admission`.
pub open spec fn admission_text(admission: Admission) -> Seq<char> {
    match admission {
        Admission::Allowed => "Allowed"@,
        Admission::RateLimited => "RateLimited"@,
        Admission::BucketRateLimited { bucket, open_mps, max_open_mps } => {
            "BucketRateLimited: bucket="@ + bucket + ", open_mps="@ + decimal(open_mps as nat)
                + ", max_open_mps="@ + decimal(max_open_mps as nat)
        },
    }
}

impl RateLimitStatus {
    /// Whether the proposal is admitted.
    pub fn is_allowed(&self) -> (r: bool)
        ensures
            r == (self@ is Allowed),
    {
        match self {
            RateLimitStatus::Allowed => true,
            _ => false,
        }
    }

    /// The status as a line of text for a person to read.
    pub fn to_string(&self) -> (r: String)
        ensures
            r@ == admission_text(self@),
    {
        match self {
            RateLimitStatus::Allowed => String::from_str("Allowed"),
            RateLimitStatus::RateLimited => String::from_str("RateLimited"),
            RateLimitStatus::BucketRateLimited { bucket, open_mps, max_open_mps } => {
                let mut out = String::from_str("BucketRateLimited: bucket=");
                out.append(bucket.as_str());
                out.append(", open_mps=");
                out.append(decimal_text(*open_mps).as_str());
                out.append(", max_open_mps=");
                out.append(decimal_text(*max_open_mps).as_str());
                out
            },
        }
    }
}

/// What a limiter reports of itself: a number per bucket.
#[derive(Debug)]
pub struct RateLimitStats {
    pub per_bucket: BucketCounts,
}

/// The numbers that `stats` holds, if there are any.
pub open spec fn stats_view(stats: Option<RateLimitStats>) -> Option<Map<Seq<char>, usize>> {
    match stats {
        Some(stats) => Some(stats.per_bucket@),
        None => None,
    }
}

/// The counts that `slot` holds, if it holds any.
pub open spec fn counts_view(slot: Option<BucketCounts>) -> Option<Map<Seq<char>, usize>> {
    match slot {
        Some(counts) => Some(counts@),
        None => None,
    }
}

/// The count of `bucket` in `counts`, and 0 where it has none.
pub open spec fn count_in(counts: Map<Seq<char>, usize>, bucket: Seq<char>) -> nat {
    if counts.contains_key(bucket) {
        counts[bucket] as nat
    } else {
        0
    }
}

/// The counts of `status` in `snapshot`, and no counts where it has not been counted.
pub open spec fn counts_of(
    snapshot: Map<MergeProposalStatus, Map<Seq<char>, usize>>,
    status: MergeProposalStatus,
) -> Map<Seq<char>, usize> {
    if snapshot.contains_key(status) {
        snapshot[status]
    } else {
        Map::empty()
    }
}

/// The open proposals per bucket that are known once `snapshot` has been
/// taken: those that it counted as open, and none for any bucket where it
/// counted no open proposal at all.
pub open spec fn open_counts(snapshot: Map<MergeProposalStatus, Map<Seq<char>, usize>>) -> Option<
    Map<Seq<char>, usize>,
> {
    Some(counts_of(snapshot, MergeProposalStatus::Open))
}

/// The proposals of `bucket` that were absorbed: merged, or applied in another way.
pub open spec fn absorbed_count(
    snapshot: Map<MergeProposalStatus, Map<Seq<char>, usize>>,
    bucket: Seq<char>,
) -> nat {
    count_in(counts_of(snapshot, MergeProposalStatus::Merged), bucket) + count_in(
        counts_of(snapshot, MergeProposalStatus::Applied),
        bucket,
    )
}

/// Every bucket's absorbed count in `snapshot` stays below the largest `usize`.
pub open spec fn absorbed_counts_fit(
    snapshot: Map<MergeProposalStatus, Map<Seq<char>, usize>>,
) -> bool {
    forall|bucket: Seq<char>| #[trigger] absorbed_count(snapshot, bucket) < usize::MAX
}

/// The absorbed proposals per bucket that `snapshot` holds.
pub open spec fn absorbed_counts(
    snapshot: Map<MergeProposalStatus, Map<Seq<char>, usize>>,
) -> Map<Seq<char>, usize> {
    Map::new(
        |bucket: Seq<char>|
            counts_of(snapshot, MergeProposalStatus::Merged).contains_key(bucket) || counts_of(
                snapshot,
                MergeProposalStatus::Applied,
            ).contains_key(bucket),
        |bucket: Seq<char>| absorbed_count(snapshot, bucket) as usize,
    )
}

/// The admission decision of a limiter that compares a bucket's open proposals
/// with `max`: nothing is admitted before the open proposals are known, and a
/// bucket is turned away only when it holds more than `max`.
pub open spec fn threshold_decision(
    open: Option<Map<Seq<char>, usize>>,
    max: usize,
    bucket: Seq<char>,
) -> Admission {
    match open {
        None => Admission::RateLimited,
        Some(counts) => {
            if counts.contains_key(bucket) && counts[bucket] > max {
                Admission::BucketRateLimited {
                    bucket,
                    open_mps: counts[bucket],
                    max_open_mps: max,
                }
            } else {
                Admission::Allowed
            }
        },
    }
}

/// The open proposals after one more was opened in `bucket`. Before the open
/// proposals are known there is nothing to count up.
pub open spec fn after_inc(open: Option<Map<Seq<char>, usize>>, bucket: Seq<char>) -> Option<
    Map<Seq<char>, usize>,
> {
    match open {
        None => None,
        Some(counts) => Some(counts.insert(bucket, (count_in(counts, bucket) + 1) as usize)),
    }
}

/// Whether the open proposals of `bucket` can still be counted up by one.
pub open spec fn room_for_inc(open: Option<Map<Seq<char>, usize>>, bucket: Seq<char>) -> bool {
    match open {
        None => true,
        Some(counts) => count_in(counts, bucket) < usize::MAX,
    }
}

/// The limit that slow start derives for a bucket: one more than it has had absorbed.
pub open spec fn slow_start_limit(absorbed: Map<Seq<char>, usize>, bucket: Seq<char>) -> nat {
    count_in(absorbed, bucket) + 1
}

/// The smaller of the hard cap and the derived limit.
pub open spec fn effective_cap(max: usize, limit: nat) -> usize {
    if limit < max {
        limit as usize
    } else {
        max
    }
}

/// The capability that every admission policy offers.
pub trait RateLimiter: Send + Sync {
    /// What `check_allowed` answers for `bucket`.
    spec fn decision(&self, bucket: Seq<char>) -> Admission;

    /// What `get_stats` reports.
    spec fn reported(&self) -> Option<Map<Seq<char>, usize>>;

    /// Whether the limiter can take `snapshot` without a count leaving `usize`.
    spec fn accepts(&self, snapshot: Map<MergeProposalStatus, Map<Seq<char>, usize>>) -> bool;

    /// Whether one more proposal can be counted for `bucket` without leaving `usize`.
    spec fn has_room(&self, bucket: Seq<char>) -> bool;

    /// What `check_allowed` answers for `bucket` once `snapshot` has been
    /// taken. It goes by the snapshot and by how the limiter was made: what
    /// the limiter knew before has no part in it.
    spec fn decision_after(
        &self,
        snapshot: Map<MergeProposalStatus, Map<Seq<char>, usize>>,
        bucket: Seq<char>,
    ) -> Admission;

    /// What `get_stats` reports once `snapshot` has been taken.
    spec fn reported_after(
        &self,
        snapshot: Map<MergeProposalStatus, Map<Seq<char>, usize>>,
    ) -> Option<Map<Seq<char>, usize>>;

    /// Whether `set_mps_per_bucket` can be called with `mps_per_bucket`.
    fn can_take(&self, mps_per_bucket: &MergeProposalCounts) -> (r: bool)
        ensures
            r == self.accepts(mps_per_bucket@),
    ;

    /// Whether `inc` can be called for `bucket`.
    fn can_inc(&self, bucket: &str) -> (r: bool)
        ensures
            r == self.has_room(bucket@),
    ;

    /// Replaces what the limiter knows by `mps_per_bucket`. What it answers
    /// and reports from then on is what the snapshot gives, whatever it knew
    /// before; what it would make of any later snapshot stays as it was.
    fn set_mps_per_bucket(&mut self, mps_per_bucket: &MergeProposalCounts)
        requires
            old(self).accepts(mps_per_bucket@),
        ensures
            forall|bucket: Seq<char>| #[trigger]
                final(self).decision(bucket) == old(self).decision_after(
                    mps_per_bucket@,
                    bucket,
                ),
            final(self).reported() == old(self).reported_after(mps_per_bucket@),
            forall|next: Map<MergeProposalStatus, Map<Seq<char>, usize>>, bucket: Seq<char>| #[trigger]
                final(self).decision_after(next, bucket) == old(self).decision_after(
                    next,
                    bucket,
                ),
            forall|next: Map<MergeProposalStatus, Map<Seq<char>, usize>>| #[trigger]
                final(self).reported_after(next) == old(self).reported_after(next),
            forall|next: Map<MergeProposalStatus, Map<Seq<char>, usize>>| #[trigger]
                final(self).accepts(next) == old(self).accepts(next),
    ;

    /// Whether `bucket` may take one more proposal. Changes nothing.
    fn check_allowed(&self, bucket: &str) -> (r: RateLimitStatus)
        ensures
            r@ == self.decision(bucket@),
    ;

    /// Records that one proposal was opened in `bucket`. The answer for every
    /// other bucket stays as it was, and so does what the limiter would make
    /// of any later snapshot.
    fn inc(&mut self, bucket: &str)
        requires
            old(self).has_room(bucket@),
        ensures
            forall|other: Seq<char>|
                other != bucket@ ==> #[trigger] final(self).decision(other) == old(
                    self,
                ).decision(other),
            forall|next: Map<MergeProposalStatus, Map<Seq<char>, usize>>, other: Seq<char>| #[trigger]
                final(self).decision_after(next, other) == old(self).decision_after(
                    next,
                    other,
                ),
            forall|next: Map<MergeProposalStatus, Map<Seq<char>, usize>>| #[trigger]
                final(self).reported_after(next) == old(self).reported_after(next),
            forall|next: Map<MergeProposalStatus, Map<Seq<char>, usize>>| #[trigger]
                final(self).accepts(next) == old(self).accepts(next),
    ;

    /// A number per bucket, or `None` before the first snapshot.
    fn get_stats(&self) -> (r: Option<RateLimitStats>)
        ensures
            stats_view(r) == self.reported(),
    ;

    /// The cap that the limiter declares for `bucket`: none, unless a policy says otherwise.
    fn get_max_open(&self, bucket: &str) -> (r: Option<usize>)
        default_ensures
            r is None,
    {
        None
    }
}

/// The policy that admits everything.
#[derive(Debug)]
pub struct NonRateLimiter;

impl NonRateLimiter {
    pub fn new() -> (r: Self)
        ensures
            r == NonRateLimiter,
    {
        NonRateLimiter
    }
}

impl RateLimiter for NonRateLimiter {
    open spec fn decision(&self, bucket: Seq<char>) -> Admission {
        Admission::Allowed
    }

    open spec fn reported(&self) -> Option<Map<Seq<char>, usize>> {
        None
    }

    open spec fn decision_after(
        &self,
        snapshot: Map<MergeProposalStatus, Map<Seq<char>, usize>>,
        bucket: Seq<char>,
    ) -> Admission {
        Admission::Allowed
    }

    open spec fn reported_after(
        &self,
        snapshot: Map<MergeProposalStatus, Map<Seq<char>, usize>>,
    ) -> Option<Map<Seq<char>, usize>> {
        None
    }

    open spec fn accepts(
        &self,
        snapshot: Map<MergeProposalStatus, Map<Seq<char>, usize>>,
    ) -> bool {
        true
    }

    open spec fn has_room(&self, bucket: Seq<char>) -> bool {
        true
    }

    fn can_take(&self, mps_per_bucket: &MergeProposalCounts) -> (r: bool) {
        true
    }

    fn can_inc(&self, bucket: &str) -> (r: bool) {
        true
    }

    fn set_mps_per_bucket(&mut self, mps_per_bucket: &MergeProposalCounts)
        ensures
            *final(self) == *old(self),
    {
    }

    fn check_allowed(&self, bucket: &str) -> (r: RateLimitStatus) {
        RateLimitStatus::Allowed
    }

    fn inc(&mut self, bucket: &str)
        ensures
            *final(self) == *old(self),
    {
    }

    fn get_stats(&self) -> (r: Option<RateLimitStats>) {
        None
    }
}

/// The policy with one cap for every bucket.
#[derive(Debug)]
pub struct FixedRateLimiter {
    max_mps_per_bucket: usize,
    open_mps_per_bucket: Option<BucketCounts>,
}

/// What a `FixedRateLimiter` knows.
pub struct FixedState {
    /// The cap: the largest number of open proposals with which a bucket is still admitted.
    pub max_mps_per_bucket: usize,
    /// The open proposals per bucket, once a snapshot has told them.
    pub open_mps_per_bucket: Option<Map<Seq<char>, usize>>,
}

impl FixedState {
    /// The state after `snapshot` has been taken.
    pub open spec fn refreshed(
        self,
        snapshot: Map<MergeProposalStatus, Map<Seq<char>, usize>>,
    ) -> FixedState {
        FixedState {
            max_mps_per_bucket: self.max_mps_per_bucket,
            open_mps_per_bucket: open_counts(snapshot),
        }
    }
}

impl View for FixedRateLimiter {
    type V = FixedState;

    closed spec fn view(&self) -> FixedState {
        FixedState {
            max_mps_per_bucket: self.max_mps_per_bucket,
            open_mps_per_bucket: counts_view(self.open_mps_per_bucket),
        }
    }
}

/// Takes the counts out of `slot`, adds one proposal to `bucket` and puts them back.
fn count_up(slot: Option<BucketCounts>, bucket: &str) -> (r: Option<BucketCounts>)
    requires
        room_for_inc(
            counts_view(slot),
            bucket@,
        ),
    ensures
        counts_view(r) == after_inc(
            counts_view(slot),
            bucket@,
        ),
{
    match slot {
        Some(mut counts) => {
            let current: usize = match counts.get(bucket) {
                Some(count) => count,
                None => 0,
            };
            counts.insert(bucket, current + 1);
            Some(counts)
        },
        None => None,
    }
}

/// The open proposals per bucket that `snapshot` counted: a copy of what it
/// holds for them, and counts for no bucket where it holds nothing.
fn open_copy(snapshot: &MergeProposalCounts) -> (r: Option<BucketCounts>)
    ensures
        counts_view(r) == open_counts(snapshot@),
{
    match snapshot.get(MergeProposalStatus::Open) {
        Some(counts) => Some(counts.clone()),
        None => Some(BucketCounts::new()),
    }
}

/// The answer of a limiter that compares the open proposals of `bucket` with `max`.
fn check_threshold(open: &Option<BucketCounts>, max: usize, bucket: &str) -> (r: RateLimitStatus)
    ensures
        r@ == threshold_decision(
            counts_view(*open),
            max,
            bucket@,
        ),
{
    match open {
        Some(counts) => {
            match counts.get(bucket) {
                Some(current) => {
                    if current > max {
                        return RateLimitStatus::BucketRateLimited {
                            bucket: String::from_str(bucket),
                            open_mps: current,
                            max_open_mps: max,
                        };
                    }
                },
                None => {},
            }
            RateLimitStatus::Allowed
        },
        None => RateLimitStatus::RateLimited,
    }
}

/// Whether the open proposals of `bucket` can still be counted up by one.
fn check_room(open: &Option<BucketCounts>, bucket: &str) -> (r: bool)
    ensures
        r == room_for_inc(
            counts_view(*open),
            bucket@,
        ),
{
    match open {
        Some(counts) => match counts.get(bucket) {
            Some(current) => current < usize::MAX,
            None => true,
        },
        None => true,
    }
}

/// The counts of `status` in `snapshot`, or no counts where it was not counted.
fn counted<'a>(snapshot: &'a MergeProposalCounts, status: MergeProposalStatus, none: &'a BucketCounts) -> (r:
    &'a BucketCounts)
    requires
        none@ == Map::<Seq<char>, usize>::empty(),
    ensures
        r@ == counts_of(snapshot@, status),
{
    match snapshot.get(status) {
        Some(counts) => counts,
        None => none,
    }
}

/// Whether every bucket of `counts` has, with what `other` holds for it, a sum
/// below the largest `usize`.
fn sums_fit(counts: &BucketCounts, other: &BucketCounts) -> (r: bool)
    ensures
        r == (forall|bucket: Seq<char>|
            counts@.contains_key(bucket) ==> #[trigger] count_in(counts@, bucket) + count_in(
                other@,
                bucket,
            ) < usize::MAX),
{
    let n = counts.len();
    let mut index: usize = 0;
    while index < n
        invariant
            index <= n,
            n == counts.names().len(),
            forall|j: int|
                0 <= j < index ==> #[trigger] count_in(counts@, counts.names()[j]) + count_in(
                    other@,
                    counts.names()[j],
                ) < usize::MAX,
        decreases n - index,
    {
        let name = counts.name_at(index);
        let here = counts.count_at(index);
        let there: usize = match other.get(name) {
            Some(count) => count,
            None => 0,
        };
        if here >= usize::MAX - there {
            assert(count_in(counts@, name@) + count_in(other@, name@) >= usize::MAX);
            return false;
        }
        index += 1;
    }
    proof {
        counts.lemma_names_are_domain();
        assert forall|bucket: Seq<char>| counts@.contains_key(bucket) implies #[trigger] count_in(
            counts@,
            bucket,
        ) + count_in(other@, bucket) < usize::MAX by {
            assert(counts.names().contains(bucket));
            let at = choose|at: int| 0 <= at < counts.names().len() && counts.names()[at] == bucket;
            assert(count_in(counts@, counts.names()[at]) + count_in(other@, counts.names()[at])
                < usize::MAX);
        }
    }
    true
}

/// Whether every bucket's absorbed count in `snapshot` stays below the
/// largest `usize`.
fn check_absorbed_counts_fit(snapshot: &MergeProposalCounts) -> (r: bool)
    ensures
        r == absorbed_counts_fit(snapshot@),
{
    let none = BucketCounts::new();
    let merged = counted(snapshot, MergeProposalStatus::Merged, &none);
    let applied = counted(snapshot, MergeProposalStatus::Applied, &none);
    let r = sums_fit(merged, applied) && sums_fit(applied, merged);
    proof {
        if r {
            assert forall|bucket: Seq<char>| #[trigger]
                absorbed_count(snapshot@, bucket) < usize::MAX by {
                if merged@.contains_key(bucket) {
                    assert(count_in(merged@, bucket) + count_in(applied@, bucket) < usize::MAX);
                } else if applied@.contains_key(bucket) {
                    assert(count_in(applied@, bucket) + count_in(merged@, bucket) < usize::MAX);
                }
            }
        } else {
            let bucket = if !(forall|bucket: Seq<char>|
                merged@.contains_key(bucket) ==> #[trigger] count_in(merged@, bucket) + count_in(
                    applied@,
                    bucket,
                ) < usize::MAX) {
                choose|bucket: Seq<char>|
                    merged@.contains_key(bucket) && !(#[trigger] count_in(merged@, bucket)
                        + count_in(applied@, bucket) < usize::MAX)
            } else {
                choose|bucket: Seq<char>|
                    applied@.contains_key(bucket) && !(#[trigger] count_in(applied@, bucket)
                        + count_in(merged@, bucket) < usize::MAX)
            };
            assert(!(absorbed_count(snapshot@, bucket) < usize::MAX));
        }
    }
    r
}

impl FixedRateLimiter {
    /// A limiter with the cap `max_mps_per_bucket` that has seen no snapshot yet.
    pub fn new(max_mps_per_bucket: usize) -> (r: Self)
        ensures
            r@ == (FixedState { max_mps_per_bucket, open_mps_per_bucket: None }),
    {
        FixedRateLimiter { max_mps_per_bucket, open_mps_per_bucket: None }
    }
}

impl RateLimiter for FixedRateLimiter {
    open spec fn decision(&self, bucket: Seq<char>) -> Admission {
        threshold_decision(self@.open_mps_per_bucket, self@.max_mps_per_bucket, bucket)
    }

    open spec fn reported(&self) -> Option<Map<Seq<char>, usize>> {
        self@.open_mps_per_bucket
    }

    open spec fn decision_after(
        &self,
        snapshot: Map<MergeProposalStatus, Map<Seq<char>, usize>>,
        bucket: Seq<char>,
    ) -> Admission {
        threshold_decision(open_counts(snapshot), self@.max_mps_per_bucket, bucket)
    }

    open spec fn reported_after(
        &self,
        snapshot: Map<MergeProposalStatus, Map<Seq<char>, usize>>,
    ) -> Option<Map<Seq<char>, usize>> {
        open_counts(snapshot)
    }

    open spec fn accepts(
        &self,
        snapshot: Map<MergeProposalStatus, Map<Seq<char>, usize>>,
    ) -> bool {
        true
    }

    open spec fn has_room(&self, bucket: Seq<char>) -> bool {
        room_for_inc(self@.open_mps_per_bucket, bucket)
    }

    fn can_take(&self, mps_per_bucket: &MergeProposalCounts) -> (r: bool) {
        true
    }

    fn can_inc(&self, bucket: &str) -> (r: bool) {
        check_room(&self.open_mps_per_bucket, bucket)
    }

    fn set_mps_per_bucket(&mut self, mps_per_bucket: &MergeProposalCounts)
        ensures
            final(self)@ == old(self)@.refreshed(mps_per_bucket@),
    {
        self.open_mps_per_bucket = open_copy(mps_per_bucket);
    }

    fn check_allowed(&self, bucket: &str) -> (r: RateLimitStatus) {
        check_threshold(&self.open_mps_per_bucket, self.max_mps_per_bucket, bucket)
    }

    fn inc(&mut self, bucket: &str)
        ensures
            final(self)@ == (FixedState {
                max_mps_per_bucket: old(self)@.max_mps_per_bucket,
                open_mps_per_bucket: after_inc(old(self)@.open_mps_per_bucket, bucket@),
            }),
    {
        let mut slot: Option<BucketCounts> = None;
        core::mem::swap(&mut self.open_mps_per_bucket, &mut slot);
        self.open_mps_per_bucket = count_up(slot, bucket);
    }

    fn get_stats(&self) -> (r: Option<RateLimitStats>) {
        match &self.open_mps_per_bucket {
            Some(counts) => Some(RateLimitStats { per_bucket: counts.clone() }),
            None => None,
        }
    }
}

/// The policy that lets a bucket grow with its success: a bucket may hold one
/// more open proposal than it has had absorbed, up to a hard cap.
#[derive(Debug)]
pub struct SlowStartRateLimiter {
    max_mps_per_bucket: Option<usize>,
    open_mps_per_bucket: Option<BucketCounts>,
    absorbed_mps_per_bucket: Option<BucketCounts>,
}

/// What a `SlowStartRateLimiter` knows.
pub struct SlowStartState {
    /// The hard cap, if one is configured.
    pub max_mps_per_bucket: Option<usize>,
    /// The open proposals per bucket, once a snapshot has told them.
    pub open_mps_per_bucket: Option<Map<Seq<char>, usize>>,
    /// The absorbed proposals per bucket, once a snapshot has been taken.
    pub absorbed_mps_per_bucket: Option<Map<Seq<char>, usize>>,
}

impl SlowStartState {
    /// The state in which a limiter can be: where the open proposals are known,
    /// so are the absorbed ones, and each absorbed count leaves room for the
    /// limit that is derived from it.
    pub open spec fn inv(self) -> bool {
        &&& self.open_mps_per_bucket is Some ==> self.absorbed_mps_per_bucket is Some
        &&& match self.absorbed_mps_per_bucket {
            Some(absorbed) => forall|bucket: Seq<char>| #[trigger]
                count_in(absorbed, bucket) < usize::MAX,
            None => true,
        }
    }

    /// The state after `snapshot` has been taken.
    pub open spec fn refreshed(
        self,
        snapshot: Map<MergeProposalStatus, Map<Seq<char>, usize>>,
    ) -> SlowStartState {
        SlowStartState {
            max_mps_per_bucket: self.max_mps_per_bucket,
            open_mps_per_bucket: open_counts(snapshot),
            absorbed_mps_per_bucket: Some(absorbed_counts(snapshot)),
        }
    }

    /// The limit derived for `bucket`, once a snapshot has been taken.
    pub open spec fn limit(self, bucket: Seq<char>) -> Option<nat> {
        match self.absorbed_mps_per_bucket {
            Some(absorbed) => Some(slow_start_limit(absorbed, bucket)),
            None => None,
        }
    }

    /// Whether `bucket` is admitted: never without a hard cap, and else as
    /// its open proposals compare with the hard cap.
    pub open spec fn decision(self, bucket: Seq<char>) -> Admission {
        match self.max_mps_per_bucket {
            Some(max) => threshold_decision(self.open_mps_per_bucket, max, bucket),
            None => Admission::RateLimited,
        }
    }

    /// The number that the limiter reports for `bucket`: the smaller of the
    /// hard cap and the derived limit, and the derived limit where there is
    /// no hard cap. Where the open proposals are known, the derived limit is.
    pub open spec fn reported_for(self, bucket: Seq<char>) -> usize {
        match self.max_mps_per_bucket {
            Some(max) => effective_cap(max, self.limit(bucket).unwrap()),
            None => self.limit(bucket).unwrap() as usize,
        }
    }

    /// The numbers that the limiter reports: one for each bucket with open
    /// proposals, and nothing before the first snapshot.
    pub open spec fn stats(self) -> Option<Map<Seq<char>, usize>> {
        match self.open_mps_per_bucket {
            Some(open) => Some(
                Map::new(
                    |bucket: Seq<char>| open.contains_key(bucket),
                    |bucket: Seq<char>| self.reported_for(bucket),
                ),
            ),
            None => None,
        }
    }
}

impl View for SlowStartRateLimiter {
    type V = SlowStartState;

    closed spec fn view(&self) -> SlowStartState {
        SlowStartState {
            max_mps_per_bucket: self.max_mps_per_bucket,
            open_mps_per_bucket: counts_view(self.open_mps_per_bucket),
            absorbed_mps_per_bucket: counts_view(self.absorbed_mps_per_bucket),
        }
    }
}

/// The counts of `total` with those of `counts` added, bucket by bucket.
pub open spec fn counts_sum(total: Map<Seq<char>, usize>, counts: Map<Seq<char>, usize>) -> Map<
    Seq<char>,
    usize,
> {
    Map::new(
        |bucket: Seq<char>| total.contains_key(bucket) || counts.contains_key(bucket),
        |bucket: Seq<char>| (count_in(total, bucket) + count_in(counts, bucket)) as usize,
    )
}

/// The names among the first `upto + 1` of `names` are those among the first
/// `upto`, and the one at `upto`.
proof fn lemma_take_one_more(names: Seq<Seq<char>>, upto: int)
    requires
        0 <= upto < names.len(),
    ensures
        names.take(upto + 1).to_set() == names.take(upto).to_set().insert(names[upto]),
{
    let longer = names.take(upto + 1);
    let shorter = names.take(upto);
    assert forall|name: Seq<char>| longer.contains(name) <==> (shorter.contains(name) || name
        == names[upto]) by {
        if name == names[upto] {
            assert(longer[upto] == name);
        }
        if longer.contains(name) && name != names[upto] {
            let at = choose|at: int| 0 <= at < longer.len() && longer[at] == name;
            assert(shorter[at] == name);
        }
        if shorter.contains(name) {
            let at = choose|at: int| 0 <= at < shorter.len() && shorter[at] == name;
            assert(longer[at] == name);
        }
    }
    assert(longer.to_set() =~= shorter.to_set().insert(names[upto]));
}

/// Adds the counts of `counts` to those of `total`, bucket by bucket.
fn add_counts(total: &mut BucketCounts, counts: &BucketCounts)
    requires
        forall|bucket: Seq<char>| #[trigger]
            count_in(old(total)@, bucket) + count_in(counts@, bucket) <= usize::MAX,
    ensures
        final(total)@ == counts_sum(old(total)@, counts@),
{
    let n = counts.len();
    let mut index: usize = 0;
    proof {
        assert(total@ =~= counts_sum(old(total)@, Map::empty()));
    }
    while index < n
        invariant
            index <= n,
            n == counts.names().len(),
            counts.names().no_duplicates(),
            forall|bucket: Seq<char>| #[trigger]
                count_in(old(total)@, bucket) + count_in(counts@, bucket) <= usize::MAX,
            total@ == counts_sum(
                old(total)@,
                counts@.restrict(counts.names().take(index as int).to_set()),
            ),
        decreases n - index,
    {
        let name = counts.name_at(index);
        let count = counts.count_at(index);
        let ghost seen = counts@.restrict(counts.names().take(index as int).to_set());
        let ghost before = total@;
        proof {
            assert(!counts.names().take(index as int).contains(name@));
            assert(!seen.contains_key(name@));
            assert(count_in(old(total)@, name@) + count_in(counts@, name@) <= usize::MAX);
        }
        let current: usize = match total.get(name) {
            Some(current) => current,
            None => 0,
        };
        total.insert(name, current + count);
        proof {
            let next = counts@.restrict(counts.names().take(index + 1).to_set());
            lemma_take_one_more(counts.names(), index as int);
            assert(total@ =~= counts_sum(old(total)@, next));
        }
        index += 1;
    }
    proof {
        counts.lemma_names_are_domain();
        assert(counts.names().take(n as int) =~= counts.names());
        assert(counts@.restrict(counts.names().to_set()) =~= counts@);
    }
}

impl SlowStartRateLimiter {
    #[verifier::type_invariant]
    spec fn state_inv(&self) -> bool {
        self@.inv()
    }

    /// A limiter with the hard cap `max_mps_per_bucket` that has seen no snapshot yet.
    pub fn new(max_mps_per_bucket: Option<usize>) -> (r: Self)
        ensures
            r@ == (SlowStartState {
                max_mps_per_bucket,
                open_mps_per_bucket: None,
                absorbed_mps_per_bucket: None,
            }),
    {
        SlowStartRateLimiter {
            max_mps_per_bucket,
            open_mps_per_bucket: None,
            absorbed_mps_per_bucket: None,
        }
    }

    /// The limit derived for `bucket`: one more than the proposals it has had
    /// absorbed, and `None` before the first snapshot.
    pub fn get_limit(&self, bucket: &str) -> (r: Option<usize>)
        ensures
            match r {
                Some(limit) => self@.limit(bucket@) == Some(limit as nat),
                None => self@.limit(bucket@) is None,
            },
    {
        proof {
            use_type_invariant(self);
        }
        match &self.absorbed_mps_per_bucket {
            Some(absorbed) => {
                assert(count_in(absorbed@, bucket@) < usize::MAX);
                match absorbed.get(bucket) {
                    Some(count) => Some(count + 1),
                    None => Some(1),
                }
            },
            None => None,
        }
    }
}

impl RateLimiter for SlowStartRateLimiter {
    open spec fn decision(&self, bucket: Seq<char>) -> Admission {
        self@.decision(bucket)
    }

    open spec fn reported(&self) -> Option<Map<Seq<char>, usize>> {
        self@.stats()
    }

    open spec fn decision_after(
        &self,
        snapshot: Map<MergeProposalStatus, Map<Seq<char>, usize>>,
        bucket: Seq<char>,
    ) -> Admission {
        self@.refreshed(snapshot).decision(bucket)
    }

    open spec fn reported_after(
        &self,
        snapshot: Map<MergeProposalStatus, Map<Seq<char>, usize>>,
    ) -> Option<Map<Seq<char>, usize>> {
        self@.refreshed(snapshot).stats()
    }

    open spec fn accepts(
        &self,
        snapshot: Map<MergeProposalStatus, Map<Seq<char>, usize>>,
    ) -> bool {
        absorbed_counts_fit(snapshot)
    }

    open spec fn has_room(&self, bucket: Seq<char>) -> bool {
        room_for_inc(self@.open_mps_per_bucket, bucket)
    }

    fn can_take(&self, mps_per_bucket: &MergeProposalCounts) -> (r: bool) {
        check_absorbed_counts_fit(mps_per_bucket)
    }

    fn can_inc(&self, bucket: &str) -> (r: bool) {
        check_room(&self.open_mps_per_bucket, bucket)
    }

    fn set_mps_per_bucket(&mut self, mps_per_bucket: &MergeProposalCounts)
        ensures
            final(self)@ == old(self)@.refreshed(mps_per_bucket@),
    {
        let ghost snapshot = mps_per_bucket@;
        let mut absorbed = BucketCounts::new();
        match mps_per_bucket.get(MergeProposalStatus::Merged) {
            Some(merged) => {
                add_counts(&mut absorbed, merged);
            },
            None => {},
        }
        proof {
            assert(absorbed@ =~= counts_of(snapshot, MergeProposalStatus::Merged));
            assert forall|bucket: Seq<char>| #[trigger]
                count_in(absorbed@, bucket) + count_in(
                    counts_of(snapshot, MergeProposalStatus::Applied),
                    bucket,
                ) <= usize::MAX by {
                assert(absorbed_count(snapshot, bucket) < usize::MAX);
            }
        }
        match mps_per_bucket.get(MergeProposalStatus::Applied) {
            Some(applied) => {
                add_counts(&mut absorbed, applied);
            },
            None => {},
        }
        proof {
            assert(absorbed@ =~= absorbed_counts(snapshot));
            assert forall|bucket: Seq<char>| #[trigger]
                count_in(absorbed@, bucket) < usize::MAX by {
                assert(absorbed_count(snapshot, bucket) < usize::MAX);
            }
        }
        // The absorbed counts go in first: once the open counts are known,
        // the absorbed ones have to be.
        self.absorbed_mps_per_bucket = Some(absorbed);
        self.open_mps_per_bucket = open_copy(mps_per_bucket);
    }

    fn check_allowed(&self, bucket: &str) -> (r: RateLimitStatus) {
        match self.max_mps_per_bucket {
            Some(max) => check_threshold(&self.open_mps_per_bucket, max, bucket),
            None => RateLimitStatus::RateLimited,
        }
    }

    fn inc(&mut self, bucket: &str)
        ensures
            final(self)@ == (SlowStartState {
                open_mps_per_bucket: after_inc(old(self)@.open_mps_per_bucket, bucket@),
                ..old(self)@
            }),
    {
        proof {
            use_type_invariant(&*self);
        }
        let mut slot: Option<BucketCounts> = None;
        core::mem::swap(&mut self.open_mps_per_bucket, &mut slot);
        self.open_mps_per_bucket = count_up(slot, bucket);
    }

    fn get_stats(&self) -> (r: Option<RateLimitStats>) {
        proof {
            use_type_invariant(self);
        }
        match &self.open_mps_per_bucket {
            Some(open) => {
                let max = self.max_mps_per_bucket;
                let mut per_bucket = BucketCounts::new();
                let n = open.len();
                let mut index: usize = 0;
                while index < n
                    invariant
                        index <= n,
                        n == open.names().len(),
                        self@.inv(),
                        self@.open_mps_per_bucket == Some(open@),
                        self@.max_mps_per_bucket == max,
                        per_bucket@ == self@.stats().unwrap().restrict(
                            open.names().take(index as int).to_set(),
                        ),
                    decreases n - index,
                {
                    let name = open.name_at(index);
                    let limit = self.get_limit(name).unwrap();
                    let cap = match max {
                        Some(max) => if limit < max {
                            limit
                        } else {
                            max
                        },
                        None => limit,
                    };
                    per_bucket.insert(name, cap);
                    proof {
                        lemma_take_one_more(open.names(), index as int);
                        assert(per_bucket@ =~= self@.stats().unwrap().restrict(
                            open.names().take(index + 1).to_set(),
                        ));
                    }
                    index += 1;
                }
                proof {
                    open.lemma_names_are_domain();
                    assert(open.names().take(n as int) =~= open.names());
                    assert(per_bucket@ =~= self@.stats().unwrap());
                }
                Some(RateLimitStats { per_bucket })
            },
            None => None,
        }
    }
}

/// The open proposals after one more was opened in each of `buckets`, in turn.
pub open spec fn after_incs(open: Option<Map<Seq<char>, usize>>, buckets: Seq<Seq<char>>) -> Option<
    Map<Seq<char>, usize>,
>
    decreases buckets.len(),
{
    if buckets.len() == 0 {
        open
    } else {
        after_inc(after_incs(open, buckets.drop_last()), buckets.last())
    }
}

/// A limiter that compares with a cap admits nothing before its first
/// snapshot, for whatever bucket it is asked and however many proposals were
/// counted up since it was made.
pub proof fn lemma_fails_closed_before_snapshot(
    max: usize,
    opened: Seq<Seq<char>>,
    bucket: Seq<char>,
)
    ensures
        after_incs(None, opened) is None,
        threshold_decision(after_incs(None, opened), max, bucket) == Admission::RateLimited,
    decreases opened.len(),
{
    if opened.len() > 0 {
        lemma_fails_closed_before_snapshot(max, opened.drop_last(), bucket);
    }
}

/// The cap is the last number of open proposals with which a bucket is
/// admitted: at the cap it is allowed, above it it is turned away, and the
/// answer then names the bucket, its open proposals and the cap.
pub proof fn lemma_cap_is_inclusive(counts: Map<Seq<char>, usize>, max: usize, bucket: Seq<char>)
    ensures
        count_in(counts, bucket) <= max ==> threshold_decision(Some(counts), max, bucket)
            == Admission::Allowed,
        count_in(counts, bucket) > max ==> threshold_decision(Some(counts), max, bucket) == (
        Admission::BucketRateLimited { bucket, open_mps: counts[bucket], max_open_mps: max }),
{
}

/// A snapshot overwrites what a limiter knew and merges nothing into it: after
/// two snapshots the state is that after the second alone, so taking the same
/// snapshot twice changes nothing the second time.
pub proof fn lemma_snapshot_overwrites(
    fixed: FixedState,
    slow_start: SlowStartState,
    first: Map<MergeProposalStatus, Map<Seq<char>, usize>>,
    second: Map<MergeProposalStatus, Map<Seq<char>, usize>>,
)
    ensures
        fixed.refreshed(first).refreshed(second) == fixed.refreshed(second),
        fixed.refreshed(first).refreshed(first) == fixed.refreshed(first),
        slow_start.refreshed(first).refreshed(second) == slow_start.refreshed(second),
        slow_start.refreshed(first).refreshed(first) == slow_start.refreshed(first),
{
}

/// Slow start lets a bucket without absorbed proposals hold one open
/// proposal, and each absorbed proposal raises the derived limit by one.
pub proof fn lemma_slow_start_limit_grows(
    absorbed: Map<Seq<char>, usize>,
    bucket: Seq<char>,
    count: usize,
)
    requires
        count < usize::MAX,
    ensures
        count_in(absorbed, bucket) == 0 ==> slow_start_limit(absorbed, bucket) == 1,
        slow_start_limit(absorbed.insert(bucket, count), bucket) == count + 1,
        slow_start_limit(absorbed.insert(bucket, (count + 1) as usize), bucket)
            == slow_start_limit(absorbed.insert(bucket, count), bucket) + 1,
{
}

/// What slow start reports never exceeds the hard cap nor the derived limit,
/// and is one of the two.
pub proof fn lemma_effective_cap_is_min(max: usize, limit: nat)
    ensures
        effective_cap(max, limit) <= max,
        effective_cap(max, limit) <= limit,
        effective_cap(max, limit) == max || effective_cap(max, limit) == limit,
{
}

} // verus!
