//! Counters and derived rates for the ingestion pipeline.
use vstd::prelude::*;
use crate::clock::wall_clock_micros;

verus! {

/// Snapshot of the pipeline's counters. All counters are monotone except on
/// an explicit reset. `last_update` is the wall clock, in microseconds since
/// the Unix epoch, of the latest counter change.
#[derive(Debug, Clone, Copy)]
pub struct ProcessingStats {
    /// Messages accepted into a priority queue.
    pub messages_received: u64,
    /// Messages handed to the handler and processed successfully.
    pub messages_processed: u64,
    /// Messages dropped, for any reason.
    pub messages_dropped: u64,
    /// Moving average of handler latency, in microseconds, weight 1/10
    /// toward the newest sample.
    pub avg_processing_time_us: u64,
    /// Latest queue-depth gauge reading.
    pub queue_size: usize,
    /// Wall clock of the latest change, microseconds since the Unix epoch.
    pub last_update: Option<u64>,
}

/// The moving-average update: the first sample is taken as-is, later samples
/// are folded in with weight 1/10.
pub open spec fn spec_moving_avg(old_avg: u64, sample_us: u64) -> u64 {
    if old_avg == 0 {
        sample_us
    } else {
        ((old_avg * 9 + sample_us) / 10) as u64
    }
}

/// The receive count as a divisor: at least 1, so an untouched pipeline has
/// rate 0 rather than an undefined one.
pub open spec fn spec_rate_denominator(s: ProcessingStats) -> int {
    if s.messages_received == 0 {
        1
    } else {
        s.messages_received as int
    }
}

/// The drop rate in thousandths: `dropped * 1000 / max(1, received)`,
/// saturating at `u64::MAX`.
pub open spec fn spec_drop_rate_millis(s: ProcessingStats) -> u64 {
    let r = s.messages_dropped as int * 1000 / spec_rate_denominator(s);
    if r > u64::MAX {
        u64::MAX
    } else {
        r as u64
    }
}

/// The processing rate in messages per second measured against a clock
/// reading `now_micros`: 0 when no update was recorded yet or the clock has
/// not advanced past it.
pub open spec fn spec_processing_rate_at(s: ProcessingStats, now_micros: u64) -> u64 {
    match s.last_update {
        Some(t) => if now_micros > t {
            let r = s.messages_processed as int * 1000000 / (now_micros - t) as int;
            if r > u64::MAX {
                u64::MAX
            } else {
                r as u64
            }
        } else {
            0
        },
        None => 0,
    }
}

impl ProcessingStats {
    /// Creates a zeroed statistics record stamped with the current clock.
    pub fn new() -> (r: Self)
        ensures
            r.messages_received == 0,
            r.messages_processed == 0,
            r.messages_dropped == 0,
            r.avg_processing_time_us == 0,
            r.queue_size == 0,
            r.last_update is Some,
    {
        ProcessingStats {
            messages_received: 0,
            messages_processed: 0,
            messages_dropped: 0,
            avg_processing_time_us: 0,
            queue_size: 0,
            last_update: Some(wall_clock_micros()),
        }
    }

    /// Counts one message accepted into a queue.
    pub fn increment_received(&mut self)
        requires
            old(self).messages_received < u64::MAX,
        ensures
            final(self).messages_received == old(self).messages_received + 1,
            final(self).messages_processed == old(self).messages_processed,
            final(self).messages_dropped == old(self).messages_dropped,
            final(self).avg_processing_time_us == old(self).avg_processing_time_us,
            final(self).queue_size == old(self).queue_size,
            final(self).last_update is Some,
    {
        self.messages_received = self.messages_received + 1;
        self.last_update = Some(wall_clock_micros());
    }

    /// Counts one message processed by the handler.
    pub fn increment_processed(&mut self)
        requires
            old(self).messages_processed < u64::MAX,
        ensures
            final(self).messages_processed == old(self).messages_processed + 1,
            final(self).messages_received == old(self).messages_received,
            final(self).messages_dropped == old(self).messages_dropped,
            final(self).avg_processing_time_us == old(self).avg_processing_time_us,
            final(self).queue_size == old(self).queue_size,
            final(self).last_update is Some,
    {
        self.messages_processed = self.messages_processed + 1;
        self.last_update = Some(wall_clock_micros());
    }

    /// Counts one dropped message.
    pub fn increment_dropped(&mut self)
        requires
            old(self).messages_dropped < u64::MAX,
        ensures
            final(self).messages_dropped == old(self).messages_dropped + 1,
            final(self).messages_received == old(self).messages_received,
            final(self).messages_processed == old(self).messages_processed,
            final(self).avg_processing_time_us == old(self).avg_processing_time_us,
            final(self).queue_size == old(self).queue_size,
            final(self).last_update is Some,
    {
        self.messages_dropped = self.messages_dropped + 1;
        self.last_update = Some(wall_clock_micros());
    }

    /// Folds one handler latency sample, in microseconds, into the moving
    /// average.
    pub fn update_processing_time(&mut self, duration_us: u64)
        ensures
            final(self).avg_processing_time_us == spec_moving_avg(
                old(self).avg_processing_time_us,
                duration_us,
            ),
            final(self).messages_received == old(self).messages_received,
            final(self).messages_processed == old(self).messages_processed,
            final(self).messages_dropped == old(self).messages_dropped,
            final(self).queue_size == old(self).queue_size,
            final(self).last_update is Some,
    {
        if self.avg_processing_time_us == 0 {
            self.avg_processing_time_us = duration_us;
        } else {
            let wide: u128 = (self.avg_processing_time_us as u128) * 9 + (duration_us as u128);
            let avg: u128 = wide / 10;
            proof {
                assert(avg <= u64::MAX) by {
                    assert(wide <= (u64::MAX as u128) * 10);
                };
            }
            self.avg_processing_time_us = avg as u64;
        }
        self.last_update = Some(wall_clock_micros());
    }

    /// Records the latest queue-depth gauge reading.
    pub fn update_queue_size(&mut self, size: usize)
        ensures
            final(self).queue_size == size,
            final(self).messages_received == old(self).messages_received,
            final(self).messages_processed == old(self).messages_processed,
            final(self).messages_dropped == old(self).messages_dropped,
            final(self).avg_processing_time_us == old(self).avg_processing_time_us,
            final(self).last_update is Some,
    {
        self.queue_size = size;
        self.last_update = Some(wall_clock_micros());
    }

    /// The drop rate in thousandths.
    pub fn get_drop_rate(&self) -> (r: u64)
        ensures
            r == spec_drop_rate_millis(*self),
    {
        let denom: u128 = if self.messages_received == 0 {
            1
        } else {
            self.messages_received as u128
        };
        let wide: u128 = (self.messages_dropped as u128) * 1000 / denom;
        if wide > u64::MAX as u128 {
            u64::MAX
        } else {
            wide as u64
        }
    }

    /// The processing rate, in messages per second, measured against the
    /// clock reading `now_micros`.
    pub fn processing_rate_at(&self, now_micros: u64) -> (r: u64)
        ensures
            r == spec_processing_rate_at(*self, now_micros),
    {
        match self.last_update {
            Some(t) => {
                if now_micros > t {
                    let wide: u128 = (self.messages_processed as u128) * 1000000 / ((now_micros
                        - t) as u128);
                    if wide > u64::MAX as u128 {
                        u64::MAX
                    } else {
                        wide as u64
                    }
                } else {
                    0
                }
            },
            None => 0,
        }
    }

    /// The processing rate, in messages per second, against the current wall
    /// clock.
    pub fn get_processing_rate(&self) -> (r: u64)
        ensures
            exists|now: u64| r == spec_processing_rate_at(*self, now),
    {
        let now = wall_clock_micros();
        let r = self.processing_rate_at(now);
        proof {
            assert(r == spec_processing_rate_at(*self, now));
        }
        r
    }
}

impl Default for ProcessingStats {
    /// A zeroed statistics record with no update stamp.
    fn default() -> (r: Self)
        ensures
            r.messages_received == 0,
            r.messages_processed == 0,
            r.messages_dropped == 0,
            r.avg_processing_time_us == 0,
            r.queue_size == 0,
            r.last_update is None,
    {
        ProcessingStats {
            messages_received: 0,
            messages_processed: 0,
            messages_dropped: 0,
            avg_processing_time_us: 0,
            queue_size: 0,
            last_update: None,
        }
    }
}

/// The drop rate of untouched statistics is 0, and whenever no more messages
/// were dropped than received the rate lies in [0, 1000] thousandths.
pub proof fn lemma_drop_rate_bounds(s: ProcessingStats)
    requires
        s.messages_dropped <= s.messages_received,
    ensures
        0 <= spec_drop_rate_millis(s) <= 1000,
        s.messages_received == 0 ==> spec_drop_rate_millis(s) == 0,
{
    let denom = spec_rate_denominator(s);
    assert(s.messages_dropped as int * 1000 <= denom * 1000);
    assert(s.messages_dropped as int * 1000 / denom <= 1000) by (nonlinear_arith)
        requires
            denom > 0,
            s.messages_dropped as int * 1000 <= denom * 1000,
    ;
}

} // verus!
