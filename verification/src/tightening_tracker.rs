//! Counting of tightenings, alone or in batches.

use vstd::prelude::*;

verus! {

/// Counts tightenings: in single mode every tightening stands alone, in
/// batch mode OK tightenings advance a counter towards the batch size.
#[derive(Debug, Clone, Copy)]
pub struct TighteningTracker {
    /// Batch size; 0 means single mode.
    batch_size: u32,
    /// OK tightenings counted in the current batch.
    counter: u32,
    /// ID of the last tightening, 0 before the first.
    last_tightening_id: u32,
}

/// What a tightening did to the tracker.
#[derive(Debug, Clone, Copy, PartialEq, Eq, Structural)]
pub struct TighteningInfo {
    /// ID assigned to the tightening.
    pub tightening_id: u32,
    /// Batch counter after the tightening (0 in single mode).
    pub counter: u32,
    /// Batch size in force (0 in single mode).
    pub batch_size: u32,
    /// Whether the batch is complete after the tightening.
    pub batch_complete: bool,
}

impl TighteningTracker {
    /// The batch size; 0 in single mode.
    pub closed spec fn spec_batch_size(&self) -> u32 {
        self.batch_size
    }

    /// The batch counter.
    pub closed spec fn spec_counter(&self) -> u32 {
        self.counter
    }

    /// The ID of the last tightening.
    pub closed spec fn spec_last_tightening_id(&self) -> u32 {
        self.last_tightening_id
    }

    /// Whether a batch is in force.
    pub open spec fn spec_is_batch_mode(&self) -> bool {
        self.spec_batch_size() > 0
    }

    /// A batch is complete once its counter reaches its size.
    pub open spec fn spec_is_complete(&self) -> bool {
        self.spec_batch_size() > 0 && self.spec_counter() >= self.spec_batch_size()
    }

    /// A tracker in single mode with nothing counted.
    pub fn new() -> (r: Self)
        ensures
            r.spec_batch_size() == 0,
            r.spec_counter() == 0,
            r.spec_last_tightening_id() == 0,
    {
        TighteningTracker { batch_size: 0, counter: 0, last_tightening_id: 0 }
    }

    /// The batch counter.
    pub fn counter(&self) -> (r: u32)
        ensures
            r == self.spec_counter(),
    {
        self.counter
    }

    /// The batch size; 0 in single mode.
    pub fn batch_size(&self) -> (r: u32)
        ensures
            r == self.spec_batch_size(),
    {
        self.batch_size
    }

    /// Whether a batch is in force.
    pub fn is_batch_mode(&self) -> (r: bool)
        ensures
            r == self.spec_is_batch_mode(),
    {
        self.batch_size > 0
    }

    /// Whether the batch is complete.
    pub fn is_complete(&self) -> (r: bool)
        ensures
            r == self.spec_is_complete(),
    {
        self.batch_size > 0 && self.counter >= self.batch_size
    }

    /// Whether the tool should wait for a new batch configuration.
    pub fn should_wait_for_config(&self) -> (r: bool)
        ensures
            r == self.spec_is_complete(),
    {
        self.is_complete()
    }

    /// Starts a batch of `size` tightenings with the counter at 0; a size of
    /// 0 returns to single mode.
    pub fn enable_batch(&mut self, size: u32)
        ensures
            final(self).spec_batch_size() == size,
            final(self).spec_counter() == 0,
            final(self).spec_last_tightening_id() == old(self).spec_last_tightening_id(),
    {
        self.batch_size = size;
        self.counter = 0;
    }

    /// Records a tightening: it gets the next ID, and in batch mode an OK
    /// tightening advances the counter.
    pub fn add_tightening(&mut self, ok: bool) -> (r: TighteningInfo)
        ensures
            final(self).spec_last_tightening_id() == old(self).spec_last_tightening_id().wrapping_add(1),
            final(self).spec_batch_size() == old(self).spec_batch_size(),
            final(self).spec_counter() == if old(self).spec_is_batch_mode() && ok {
                old(self).spec_counter().saturating_add(1)
            } else {
                old(self).spec_counter()
            },
            r == (TighteningInfo {
                tightening_id: final(self).spec_last_tightening_id(),
                counter: final(self).spec_counter(),
                batch_size: final(self).spec_batch_size(),
                batch_complete: final(self).spec_is_complete(),
            }),
    {
        self.last_tightening_id = self.last_tightening_id.wrapping_add(1);
        if self.batch_size > 0 && ok {
            self.counter = self.counter.saturating_add(1);
        }
        TighteningInfo {
            tightening_id: self.last_tightening_id,
            counter: self.counter,
            batch_size: self.batch_size,
            batch_complete: self.is_complete(),
        }
    }

    /// Counts a bolt as done without a tightening; returns the counter.
    pub fn increment_batch(&mut self) -> (r: u32)
        ensures
            final(self).spec_counter() == if old(self).spec_is_batch_mode() {
                old(self).spec_counter().saturating_add(1)
            } else {
                old(self).spec_counter()
            },
            final(self).spec_batch_size() == old(self).spec_batch_size(),
            final(self).spec_last_tightening_id() == old(self).spec_last_tightening_id(),
            r == final(self).spec_counter(),
    {
        if self.batch_size > 0 {
            self.counter = self.counter.saturating_add(1);
        }
        self.counter
    }

    /// Sets the batch counter back to 0; returns whether a batch is in force.
    pub fn reset_batch(&mut self) -> (r: bool)
        ensures
            r == old(self).spec_is_batch_mode(),
            final(self).spec_counter() == if r { 0 } else { old(self).spec_counter() },
            final(self).spec_batch_size() == old(self).spec_batch_size(),
            final(self).spec_last_tightening_id() == old(self).spec_last_tightening_id(),
    {
        if self.batch_size > 0 {
            self.counter = 0;
            true
        } else {
            false
        }
    }
}

/// The batch counter after `k` OK tightenings in batch mode, starting from
/// `counter`: each one advances it by one, saturating.
pub open spec fn counter_after_ok(counter: u32, k: nat) -> u32
    decreases k,
{
    if k == 0 {
        counter
    } else {
        counter_after_ok(counter, (k - 1) as nat).saturating_add(1)
    }
}

/// A batch started with `enable_batch(size)` counts its OK tightenings one
/// by one, and is complete exactly once `size` of them have been counted.
pub proof fn batch_completes_after_size_ok_tightenings(size: u32, k: nat)
    requires
        size > 0,
    ensures
        counter_after_ok(0, k) == if k <= u32::MAX {
            k
        } else {
            u32::MAX as nat
        },
        (counter_after_ok(0, k) >= size) <==> k >= size,
    decreases k,
{
    if k > 0 {
        batch_completes_after_size_ok_tightenings(size, (k - 1) as nat);
    }
}

} // verus!
