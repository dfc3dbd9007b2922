//! The statistics surface behind health reporting.
use vstd::prelude::*;
use crate::stats::{spec_moving_avg, ProcessingStats};

verus! {

/// The derived health of the pipeline.
#[derive(Debug, Clone, Copy, PartialEq, Eq, Structural)]
pub enum HealthStatus {
    /// Within all thresholds.
    Healthy,
    /// Drop rate above 5%, average latency above 5 ms, or queue above 500.
    Warning,
    /// Drop rate above 10%, average latency above 10 ms, or queue above 800.
    Critical,
}

impl HealthStatus {
    /// The status as a lower-case word.
    pub fn as_str(&self) -> (r: &'static str)
        ensures
            *self is Healthy ==> r@ == "healthy"@,
            *self is Warning ==> r@ == "warning"@,
            *self is Critical ==> r@ == "critical"@,
    {
        match self {
            HealthStatus::Healthy => "healthy",
            HealthStatus::Warning => "warning",
            HealthStatus::Critical => "critical",
        }
    }
}

/// The health a statistics snapshot derives to. The drop-rate comparisons
/// are exact: dropped / max(1, received) > 1/10 is written
/// 10 * dropped > max(1, received).
pub open spec fn spec_health(s: ProcessingStats) -> HealthStatus {
    if s.messages_dropped * 10 > crate::stats::spec_rate_denominator(s)
        || s.avg_processing_time_us > 10000 || s.queue_size > 800 {
        HealthStatus::Critical
    } else if s.messages_dropped * 20 > crate::stats::spec_rate_denominator(s)
        || s.avg_processing_time_us > 5000 || s.queue_size > 500 {
        HealthStatus::Warning
    } else {
        HealthStatus::Healthy
    }
}

/// Owns the pipeline's counters and derives health from them.
#[derive(Debug, Clone, Copy)]
pub struct PerformanceMonitor {
    /// The current counters.
    pub stats: ProcessingStats,
    /// How often a periodic reporter should publish the counters, in
    /// microseconds. The library only stores the setting.
    pub report_interval_micros: u64,
}

impl PerformanceMonitor {
    /// A monitor with zeroed counters.
    pub fn new(report_interval_micros: u64) -> (r: Self)
        ensures
            r.stats.messages_received == 0,
            r.stats.messages_processed == 0,
            r.stats.messages_dropped == 0,
            r.stats.avg_processing_time_us == 0,
            r.stats.queue_size == 0,
            r.stats.last_update is Some,
            r.report_interval_micros == report_interval_micros,
    {
        PerformanceMonitor { stats: ProcessingStats::new(), report_interval_micros }
    }

    /// A copy of the current counters.
    pub fn get_stats(&self) -> (r: ProcessingStats)
        ensures
            r == self.stats,
    {
        self.stats
    }

    /// Counts one message accepted into a queue.
    pub fn record_received(&mut self)
        requires
            old(self).stats.messages_received < u64::MAX,
        ensures
            final(self).stats.messages_received == old(self).stats.messages_received + 1,
            final(self).stats.messages_processed == old(self).stats.messages_processed,
            final(self).stats.messages_dropped == old(self).stats.messages_dropped,
            final(self).stats.avg_processing_time_us == old(
                self,
            ).stats.avg_processing_time_us,
            final(self).stats.queue_size == old(self).stats.queue_size,
            final(self).report_interval_micros == old(self).report_interval_micros,
    {
        self.stats.increment_received();
    }

    /// Counts one message processed by the handler and folds its latency
    /// into the moving average.
    pub fn record_processed(&mut self, processing_time_us: u64)
        requires
            old(self).stats.messages_processed < u64::MAX,
        ensures
            final(self).stats.messages_processed == old(self).stats.messages_processed + 1,
            final(self).stats.avg_processing_time_us == spec_moving_avg(
                old(self).stats.avg_processing_time_us,
                processing_time_us,
            ),
            final(self).stats.messages_received == old(self).stats.messages_received,
            final(self).stats.messages_dropped == old(self).stats.messages_dropped,
            final(self).stats.queue_size == old(self).stats.queue_size,
            final(self).report_interval_micros == old(self).report_interval_micros,
    {
        self.stats.increment_processed();
        self.stats.update_processing_time(processing_time_us);
    }

    /// Counts one dropped message. The reason is only descriptive.
    pub fn record_dropped(&mut self, reason: &str)
        requires
            old(self).stats.messages_dropped < u64::MAX,
        ensures
            final(self).stats.messages_dropped == old(self).stats.messages_dropped + 1,
            final(self).stats.messages_received == old(self).stats.messages_received,
            final(self).stats.messages_processed == old(self).stats.messages_processed,
            final(self).stats.avg_processing_time_us == old(
                self,
            ).stats.avg_processing_time_us,
            final(self).stats.queue_size == old(self).stats.queue_size,
            final(self).report_interval_micros == old(self).report_interval_micros,
    {
        let _ = reason;
        self.stats.increment_dropped();
    }

    /// Records the latest queue-depth gauge reading.
    pub fn update_queue_size(&mut self, size: usize)
        ensures
            final(self).stats.queue_size == size,
            final(self).stats.messages_received == old(self).stats.messages_received,
            final(self).stats.messages_processed == old(self).stats.messages_processed,
            final(self).stats.messages_dropped == old(self).stats.messages_dropped,
            final(self).stats.avg_processing_time_us == old(
                self,
            ).stats.avg_processing_time_us,
            final(self).report_interval_micros == old(self).report_interval_micros,
    {
        self.stats.update_queue_size(size);
    }

    /// Resets all counters to zero.
    pub fn reset_stats(&mut self)
        ensures
            final(self).stats.messages_received == 0,
            final(self).stats.messages_processed == 0,
            final(self).stats.messages_dropped == 0,
            final(self).stats.avg_processing_time_us == 0,
            final(self).stats.queue_size == 0,
            final(self).stats.last_update is Some,
            final(self).report_interval_micros == old(self).report_interval_micros,
    {
        self.stats = ProcessingStats::new();
    }

    /// Which performance warnings a reporter should raise, given the
    /// externally measured processing rate in messages per second: a drop
    /// rate above 5%, an average latency above 5 ms, a queue backlog above
    /// 500, and a processing rate below 100 on a pipeline that has seen
    /// real traffic.
    pub fn check_performance_warnings(&self, processing_rate: u64) -> (r: (bool, bool, bool, bool))
        ensures
            r.0 == (self.stats.messages_dropped * 20 > crate::stats::spec_rate_denominator(
                self.stats,
            )),
            r.1 == (self.stats.avg_processing_time_us > 5000),
            r.2 == (self.stats.queue_size > 500),
            r.3 == (processing_rate < 100 && self.stats.messages_received > 1000),
    {
        let denom: u128 = if self.stats.messages_received == 0 {
            1
        } else {
            self.stats.messages_received as u128
        };
        let dropped = self.stats.messages_dropped as u128;
        (
            dropped * 20 > denom,
            self.stats.avg_processing_time_us > 5000,
            self.stats.queue_size > 500,
            processing_rate < 100 && self.stats.messages_received > 1000,
        )
    }

    /// Whether a periodic report is due at `now_micros`, the last one
    /// having been published at `last_report_micros`.
    pub fn report_due(&self, last_report_micros: u64, now_micros: u64) -> (r: bool)
        ensures
            r == (now_micros - last_report_micros >= self.report_interval_micros),
    {
        now_micros >= last_report_micros && now_micros - last_report_micros
            >= self.report_interval_micros
    }

    /// Derives the pipeline's health from the current counters.
    pub fn get_health_status(&self) -> (r: HealthStatus)
        ensures
            r == spec_health(self.stats),
    {
        let s = &self.stats;
        let denom: u128 = if s.messages_received == 0 {
            1
        } else {
            s.messages_received as u128
        };
        let dropped = s.messages_dropped as u128;
        if dropped * 10 > denom || s.avg_processing_time_us > 10000 || s.queue_size > 800 {
            HealthStatus::Critical
        } else if dropped * 20 > denom || s.avg_processing_time_us > 5000 || s.queue_size
            > 500 {
            HealthStatus::Warning
        } else {
            HealthStatus::Healthy
        }
    }
}

} // verus!
