//! Batch ordinals and the time boundaries of their phases.

use vstd::prelude::*;

use vstd::arithmetic::div_mod::lemma_div_is_ordered;
use vstd::arithmetic::div_mod::lemma_fundamental_div_mod;
use vstd::arithmetic::div_mod::lemma_fundamental_div_mod_converse;
use vstd::arithmetic::div_mod::lemma_mod_bound;
use vstd::std_specs::convert::FromSpec;

use crate::instant::Instant;

verus! {

/// Seconds in one batch slot: the length of an order-collection window.
pub const BATCH_DURATION: u64 = 300;

/// Seconds, within the following slot, during which a solution for a batch
/// may still be submitted.
pub const SOLVING_WINDOW: u64 = 240;

/// The ordinal of the batch slot that covers the timestamp `secs` seconds
/// after the epoch.
pub open spec fn batch_index(secs: int) -> int {
    secs / (BATCH_DURATION as int)
}

/// Seconds after the epoch at which collection for batch `ordinal` opens.
pub open spec fn collection_start_secs(ordinal: int) -> int {
    ordinal * (BATCH_DURATION as int)
}

/// Seconds after the epoch at which solving for batch `ordinal` opens.
pub open spec fn solve_start_secs(ordinal: int) -> int {
    collection_start_secs(ordinal) + BATCH_DURATION
}

/// Seconds after the epoch at which solving for batch `ordinal` closes.
pub open spec fn solve_end_secs(ordinal: int) -> int {
    solve_start_secs(ordinal) + SOLVING_WINDOW
}

/// Why a clock reading names no batch, or no batch in its solving phase.
#[derive(Clone, Copy, Debug, PartialEq, Eq, Structural)]
pub enum ClockError {
    /// The reading lies strictly before the epoch: no batch covers it.
    BeforeEpoch,
    /// The reading lies within the very first batch's collection window,
    /// so no earlier batch exists to be solved.
    NoPrecedingBatch,
}

/// The ordinal index of a fixed-length time slot since the epoch; slot 0
/// begins at the epoch itself.
#[derive(Clone, Copy, Debug, PartialEq, Eq, Structural, PartialOrd, Ord, Hash)]
pub struct BatchId(pub u64);

impl BatchId {
    /// The batch whose slot covers `timestamp` seconds after the epoch.
    pub fn from_timestamp(timestamp: u64) -> (r: Self)
        ensures
            r.0 == batch_index(timestamp as int),
    {
        Self(timestamp / BATCH_DURATION)
    }

    /// The batch covering the instant `now`; fails exactly when `now`
    /// precedes the epoch.
    pub fn current(now: Instant) -> (r: Result<Self, ClockError>)
        requires
            now.wf(),
        ensures
            now.offset() >= 0 ==> r == Ok::<BatchId, ClockError>(
                BatchId(batch_index(now.offset()) as u64),
            ),
            now.offset() < 0 ==> r == Err::<BatchId, ClockError>(ClockError::BeforeEpoch),
    {
        if now.before_epoch {
            Err(ClockError::BeforeEpoch)
        } else {
            Ok(Self::from_timestamp(now.secs))
        }
    }

    /// The batch in its solving phase at the instant `now`: the predecessor
    /// of the batch currently collecting orders. Fails when `now` precedes
    /// the epoch, and when `now` falls inside the first batch's slot, where
    /// no earlier batch exists.
    pub fn currently_being_solved(now: Instant) -> (r: Result<Self, ClockError>)
        requires
            now.wf(),
        ensures
            now.offset() < 0 ==> r == Err::<BatchId, ClockError>(ClockError::BeforeEpoch),
            0 <= now.offset() < BATCH_DURATION ==> r == Err::<BatchId, ClockError>(
                ClockError::NoPrecedingBatch,
            ),
            now.offset() >= BATCH_DURATION ==> r == Ok::<BatchId, ClockError>(
                BatchId((batch_index(now.offset()) - 1) as u64),
            ),
    {
        proof {
            if now.offset() >= BATCH_DURATION {
                lemma_div_is_ordered(BATCH_DURATION as int, now.offset(), BATCH_DURATION as int);
            }
        }
        match Self::current(now) {
            Ok(batch) => match batch.prev() {
                Some(prev) => Ok(prev),
                None => Err(ClockError::NoPrecedingBatch),
            },
            Err(e) => Err(e),
        }
    }

    /// The timestamp, in seconds after the epoch, at which this batch's own
    /// slot begins. Inverse of `from_timestamp` only up to slot granularity:
    /// every timestamp within the slot maps back to this batch.
    pub fn as_timestamp(self) -> (r: u64)
        requires
            self.0 * BATCH_DURATION <= u64::MAX,
        ensures
            r == collection_start_secs(self.0 as int),
    {
        self.0 * BATCH_DURATION
    }

    /// The instant at which orders for this batch may first be placed.
    pub fn order_collection_start_time(self) -> (r: Instant)
        requires
            self.0 * BATCH_DURATION <= u64::MAX,
        ensures
            r.wf(),
            r.offset() == collection_start_secs(self.0 as int),
    {
        Instant::from_secs_since_epoch(self.as_timestamp())
    }

    /// The instant at which solving for this batch opens: exactly one slot
    /// after its own collection window opened.
    pub fn solve_start_time(self) -> (r: Instant)
        requires
            self.0 * BATCH_DURATION + BATCH_DURATION <= u64::MAX,
        ensures
            r.wf(),
            r.offset() == solve_start_secs(self.0 as int),
    {
        self.order_collection_start_time().plus_secs(BATCH_DURATION)
    }

    /// The instant after which a solution for this batch is no longer
    /// accepted.
    pub fn solve_end_time(self) -> (r: Instant)
        requires
            self.0 * BATCH_DURATION + BATCH_DURATION + SOLVING_WINDOW <= u64::MAX,
        ensures
            r.wf(),
            r.offset() == solve_end_secs(self.0 as int),
    {
        self.solve_start_time().plus_secs(SOLVING_WINDOW)
    }

    /// The successor batch. The ordinal one below the maximum is the last
    /// with a successor; the timeline must never silently wrap.
    pub fn next(self) -> (r: BatchId)
        requires
            self.0 < u64::MAX,
        ensures
            r.0 == self.0 + 1,
    {
        BatchId(self.0 + 1)
    }

    /// The predecessor batch, or `None` for the very first batch.
    pub fn prev(self) -> (r: Option<BatchId>)
        ensures
            self.0 == 0 ==> r is None,
            self.0 > 0 ==> r == Some(BatchId((self.0 - 1) as u64)),
    {
        if self.0 == 0 {
            None
        } else {
            Some(BatchId(self.0 - 1))
        }
    }

    /// The ordinal truncated to the 32-bit domain used by the wire
    /// representation. Lossless exactly when the ordinal fits in 32 bits.
    pub fn to_u32(self) -> (r: u32)
        ensures
            r == self.0 as u32,
    {
        #[verifier::truncate] (self.0 as u32)
    }

    /// Truncating comparison against a 32-bit value: compares only the low
    /// 32 bits of the ordinal. This is deliberately not the type's own
    /// equality; once ordinals exceed the 32-bit range, distinct batches
    /// collide under it.
    pub fn eq_u32(self, rhs: u32) -> (r: bool)
        ensures
            r == (self.0 as u32 == rhs),
    {
        self.to_u32() == rhs
    }
}

impl From<u32> for BatchId {
    /// Embeds a 32-bit ordinal from the wire representation.
    fn from(value: u32) -> (r: BatchId) {
        BatchId(value as u64)
    }
}

impl vstd::std_specs::convert::FromSpecImpl<u32> for BatchId {
    open spec fn obeys_from_spec() -> bool {
        true
    }

    open spec fn from_spec(v: u32) -> BatchId {
        BatchId(v as u64)
    }
}

/// Law: every timestamp within a batch's slot names that batch. For any
/// ordinal `n`, the timestamps `n * BATCH_DURATION + k` for `k` in
/// `[0, BATCH_DURATION)` all map to batch `n`.
pub proof fn lemma_timestamp_in_slot(n: int, k: int)
    requires
        0 <= n,
        0 <= k < BATCH_DURATION,
    ensures
        batch_index(n * BATCH_DURATION + k) == n,
{
    lemma_fundamental_div_mod_converse(
        n * (BATCH_DURATION as int) + k,
        BATCH_DURATION as int,
        n,
        k,
    );
}

/// Law: the set of timestamps mapping to batch `n` is exactly the half-open
/// slot from the batch's collection start to the next batch's collection
/// start.
pub proof fn lemma_slot_boundaries(t: int, n: int)
    requires
        0 <= t,
        0 <= n,
    ensures
        batch_index(t) == n <==> collection_start_secs(n) <= t
            < collection_start_secs(n + 1),
{
    let d = BATCH_DURATION as int;
    lemma_fundamental_div_mod(t, d);
    lemma_mod_bound(t, d);
    if collection_start_secs(n) <= t < collection_start_secs(n + 1) {
        lemma_timestamp_in_slot(n, t - n * d);
    }
}

/// Law: solving for a batch begins exactly when collection for its
/// successor begins.
pub proof fn lemma_phase_handoff(n: int)
    ensures
        solve_start_secs(n) == collection_start_secs(n + 1),
{
}

/// Law: the solving window closes exactly `SOLVING_WINDOW` seconds after it
/// opens, and the window never outlasts the slot it is nested in.
pub proof fn lemma_solving_window(n: int)
    ensures
        solve_end_secs(n) == solve_start_secs(n) + SOLVING_WINDOW,
        SOLVING_WINDOW <= BATCH_DURATION,
{
}

/// Law: batch ordinals never decrease as time advances: a later timestamp
/// never names an earlier batch.
pub proof fn lemma_batch_monotonic(t1: int, t2: int)
    requires
        t1 <= t2,
    ensures
        batch_index(t1) <= batch_index(t2),
{
    lemma_div_is_ordered(t1, t2, BATCH_DURATION as int);
}

/// Law: an ordinal that fits in 32 bits survives the round trip through
/// the 32-bit wire domain unchanged.
pub proof fn lemma_u32_round_trip(b: BatchId)
    requires
        b.0 < 0x1_0000_0000,
    ensures
        BatchId::from_spec(b.0 as u32) == b,
{
    let x: u64 = b.0;
    assert((x as u32) as u64 == x) by (bit_vector)
        requires
            x < 0x1_0000_0000,
    ;
}

/// Law: a 32-bit value embedded as a batch ordinal truncates back to
/// itself.
pub proof fn lemma_u32_embed(v: u32)
    ensures
        BatchId::from_spec(v).0 as u32 == v,
{
}

} // verus!
