use vstd::prelude::*;

verus! {

/// The modular difference `now - prev` over the counter's 32-bit width: how
/// many ticks the counter advanced, also when it wrapped past zero in
/// between. Never negative.
pub open spec fn wrap_diff(now: u32, prev: u32) -> int {
    if now >= prev {
        now - prev
    } else {
        now - prev + 0x1_0000_0000
    }
}

/// Converts a free-running, wrapping 32-bit hardware counter into cumulative
/// elapsed ticks. `tick` only measures; after consuming a delta the caller
/// moves the mark, either to the counter value it just read, or to zero when
/// it cleared the hardware counter at a report boundary. The division of
/// ticks by the counter frequency into seconds is one floating-point
/// operation at the transport edge, outside this library.
pub struct ElapsedTimeTracker {
    prev: u32,
    total: u64,
}

impl ElapsedTimeTracker {
    /// The counter value the next delta is measured from.
    pub closed spec fn mark(&self) -> u32 {
        self.prev
    }

    /// The ticks accumulated since the tracker was created.
    pub closed spec fn total(&self) -> u64 {
        self.total
    }

    /// A tracker with nothing elapsed, marked at a counter reading of zero.
    pub fn new() -> (r: ElapsedTimeTracker)
        ensures
            r.mark() == 0,
            r.total() == 0,
    {
        ElapsedTimeTracker { prev: 0, total: 0 }
    }

    /// The ticks elapsed between the mark and the counter value just read:
    /// their modular difference, so the delta is never negative, also when
    /// the counter wrapped or was reset and now reads below the mark.
    pub fn tick(&self, counter_now: u32) -> (delta: u64)
        ensures
            delta == wrap_diff(counter_now, self.mark()),
    {
        counter_now.wrapping_sub(self.prev) as u64
    }

    /// Consume a delta by moving the mark to the counter value just read.
    pub fn set_mark(&mut self, counter_now: u32)
        ensures
            final(self).mark() == counter_now,
            final(self).total() == old(self).total(),
    {
        self.prev = counter_now;
    }

    /// The hardware counter was cleared; the mark follows it to zero.
    pub fn mark_counter_cleared(&mut self)
        ensures
            final(self).mark() == 0,
            final(self).total() == old(self).total(),
    {
        self.prev = 0;
    }

    /// Add a consumed delta to the cumulative total. The total saturates at
    /// the accumulator's width instead of wrapping, so it never decreases;
    /// it resets only when the tracker itself is replaced.
    pub fn accumulate(&mut self, delta: u64)
        ensures
            final(self).mark() == old(self).mark(),
            final(self).total() == if old(self).total() + delta <= u64::MAX {
                old(self).total() + delta
            } else {
                u64::MAX as int
            },
            final(self).total() >= old(self).total(),
    {
        self.total = self.total.saturating_add(delta);
    }

    /// The ticks accumulated so far.
    pub fn total_ticks(&self) -> (r: u64)
        ensures
            r == self.total(),
    {
        self.total
    }
}

/// A measured delta is never negative, whatever the counter does: when the
/// counter value fell below the mark because the hardware counter wrapped or
/// was reset, the modular difference still lies within the counter's range.
pub proof fn lemma_tick_delta_nonnegative(now: u32, prev: u32)
    ensures
        0 <= wrap_diff(now, prev) < 0x1_0000_0000,
        now < prev ==> wrap_diff(now, prev) == now + 0x1_0000_0000 - prev,
{
}

} // verus!
