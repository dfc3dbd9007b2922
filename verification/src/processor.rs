//! The ingest coordinator: the parse → validate → deduplicate → sample →
//! classify → enqueue path, the dequeue side that feeds the handler, and the
//! accounting that ties them together.
use vstd::prelude::*;
use crate::clock::{wall_clock_micros, wall_clock_nanos};
use crate::decode::{
    decode_frame, decoded_matches_frame, json_params_object, json_service_member, json_wf,
};
use crate::dedup::{
    cache_entries, empty_cache_model, spec_is_duplicate, FingerprintCache, DEDUP_WINDOW_MICROS,
};
use crate::error::VehicleError;
use crate::message::VehicleMessage;
use crate::performance::{spec_health, HealthStatus, PerformanceMonitor};
use crate::priority::{spec_priority_of, spec_queue_capacity, MessagePriority};
use crate::queue::{queue_bound, queue_contents, BoundedQueue};
use crate::sampling::{spec_sampling_decision, SamplingConfig};
use crate::stats::{spec_moving_avg, ProcessingStats};

verus! {

/// How a routed message left the coordinator.
#[derive(Debug, Clone, Copy, PartialEq, Eq, Structural)]
pub enum SubmitOutcome {
    /// The message entered its priority queue; `messages_received` grew.
    Enqueued,
    /// The message failed the validity predicate; counted as dropped.
    DroppedInvalid,
    /// An equal message was seen within the dedup window; counted as
    /// dropped.
    DroppedDuplicate,
    /// The sampling decision rejected the message; counted as dropped.
    DroppedSampling,
    /// The target priority queue was full; counted as dropped.
    DroppedQueueFull,
}

/// The report interval the coordinator's monitor is created with, in
/// microseconds.
pub const REPORT_INTERVAL_MICROS: u64 = 10000000;

/// The coordinator. It owns the three priority queues, the dedup cache, the
/// sampling table and the statistics; workers and the eviction task reach
/// those through its methods.
pub struct MessageProcessor {
    critical_queue: BoundedQueue,
    normal_queue: BoundedQueue,
    background_queue: BoundedQueue,
    message_cache: FingerprintCache,
    sampling_config: SamplingConfig,
    monitor: PerformanceMonitor,
    in_flight: u64,
    handler_errors: u64,
    is_running: bool,
}

impl MessageProcessor {
    /// The current statistics.
    pub closed spec fn stats(self) -> ProcessingStats {
        self.monitor.stats
    }

    /// The messages queued at a priority, oldest first.
    pub closed spec fn queue_model(self, p: MessagePriority) -> Seq<VehicleMessage> {
        match p {
            MessagePriority::Critical => queue_contents(self.critical_queue),
            MessagePriority::Normal => queue_contents(self.normal_queue),
            MessagePriority::Background => queue_contents(self.background_queue),
        }
    }

    /// How many messages are queued over all three priorities.
    pub open spec fn queued_total(self) -> int {
        self.queue_model(MessagePriority::Critical).len() as int + self.queue_model(
            MessagePriority::Normal,
        ).len() as int + self.queue_model(MessagePriority::Background).len() as int
    }

    /// The dedup cache's contents.
    pub closed spec fn cache_model(self) -> Map<u64, u64> {
        cache_entries(self.message_cache)
    }

    /// The sampling table.
    pub closed spec fn rates(self) -> Map<Seq<char>, u32> {
        self.sampling_config@
    }

    /// The rate that applies to a service: its entry in the sampling
    /// table, or full acceptance when it has none.
    pub open spec fn service_rate(self, service: Seq<char>) -> u32 {
        if self.rates().contains_key(service) {
            self.rates()[service]
        } else {
            crate::sampling::spec_default_rate()
        }
    }

    /// Whether the lifecycle flag is set.
    pub closed spec fn running(self) -> bool {
        self.is_running
    }

    /// Messages dequeued and not yet accounted as processed or failed.
    pub closed spec fn in_flight_count(self) -> u64 {
        self.in_flight
    }

    /// Messages whose handler invocation failed.
    pub closed spec fn handler_error_count(self) -> u64 {
        self.handler_errors
    }

    /// Well-formed: the queues have their tiers' capacities, the sampling
    /// table has one entry per service, and the counters account for every
    /// accepted message: processed plus failed plus in flight plus queued
    /// equals received.
    pub closed spec fn wf(self) -> bool {
        &&& queue_bound(self.critical_queue) == spec_queue_capacity(MessagePriority::Critical)
        &&& queue_bound(self.normal_queue) == spec_queue_capacity(MessagePriority::Normal)
        &&& queue_bound(self.background_queue) == spec_queue_capacity(
            MessagePriority::Background,
        )
        &&& self.sampling_config.wf()
        &&& self.stats().messages_processed + self.handler_errors + self.in_flight
            + self.queued_total() == self.stats().messages_received
    }

    /// The outcome routing a message at the given times would have against
    /// this state.
    pub open spec fn spec_route_outcome(
        self,
        m: VehicleMessage,
        now_micros: u64,
        entropy_nanos: u64,
    ) -> SubmitOutcome {
        if !m.spec_valid() {
            SubmitOutcome::DroppedInvalid
        } else if spec_is_duplicate(self.cache_model(), m.fingerprint(), now_micros) {
            SubmitOutcome::DroppedDuplicate
        } else if !spec_sampling_decision(
            self.service_rate(m.service@),
            m.service@,
            entropy_nanos,
        ) {
            SubmitOutcome::DroppedSampling
        } else if self.queue_model(spec_priority_of(m.service@)).len() < spec_queue_capacity(
            spec_priority_of(m.service@),
        ) {
            SubmitOutcome::Enqueued
        } else {
            SubmitOutcome::DroppedQueueFull
        }
    }

    /// Creates an idle coordinator: empty queues with their tiers'
    /// capacities, an empty dedup cache, the default sampling table, zeroed
    /// statistics, and the lifecycle flag cleared.
    pub fn new() -> (r: Self)
        ensures
            r.wf(),
            !r.running(),
            r.stats().messages_received == 0,
            r.stats().messages_processed == 0,
            r.stats().messages_dropped == 0,
            r.stats().avg_processing_time_us == 0,
            r.in_flight_count() == 0,
            r.handler_error_count() == 0,
            r.cache_model() == empty_cache_model(),
            forall|p: MessagePriority| #[trigger] r.queue_model(p) == Seq::<
                VehicleMessage,
            >::empty(),
            r.rates() == crate::sampling::spec_default_rates(),
    {
        let critical_queue = BoundedQueue::new(MessagePriority::Critical.queue_capacity());
        let normal_queue = BoundedQueue::new(MessagePriority::Normal.queue_capacity());
        let background_queue = BoundedQueue::new(MessagePriority::Background.queue_capacity());
        let r = MessageProcessor {
            critical_queue,
            normal_queue,
            background_queue,
            message_cache: FingerprintCache::new(),
            sampling_config: SamplingConfig::default(),
            monitor: PerformanceMonitor::new(REPORT_INTERVAL_MICROS),
            in_flight: 0,
            handler_errors: 0,
            is_running: false,
        };
        proof {
            assert forall|p: MessagePriority| #[trigger] r.queue_model(p) == Seq::<
                VehicleMessage,
            >::empty() by {
                match p {
                    MessagePriority::Critical => {},
                    MessagePriority::Normal => {},
                    MessagePriority::Background => {},
                }
            }
        }
        r
    }

    /// Routes one decoded message: validity, dedup against `now_micros`,
    /// sampling with `entropy_nanos`, classification, then a non-blocking
    /// enqueue. Exactly one outcome happens, and exactly one of
    /// `messages_received` and `messages_dropped` grows by one.
    pub fn route_message(
        &mut self,
        m: VehicleMessage,
        now_micros: u64,
        entropy_nanos: u64,
    ) -> (o: SubmitOutcome)
        requires
            old(self).wf(),
            old(self).stats().messages_received < u64::MAX,
            old(self).stats().messages_dropped < u64::MAX,
        ensures
            final(self).wf(),
            o == old(self).spec_route_outcome(m, now_micros, entropy_nanos),
            final(self).running() == old(self).running(),
            final(self).rates() == old(self).rates(),
            final(self).in_flight_count() == old(self).in_flight_count(),
            final(self).handler_error_count() == old(self).handler_error_count(),
            final(self).stats().messages_processed == old(self).stats().messages_processed,
            final(self).stats().avg_processing_time_us == old(self).stats().avg_processing_time_us,
            o is Enqueued ==> final(self).stats().messages_received == old(self).stats().messages_received + 1 && final(self).stats().messages_dropped == old(self).stats().messages_dropped,
            !(o is Enqueued) ==> final(self).stats().messages_dropped == old(self).stats().messages_dropped + 1 && final(self).stats().messages_received == old(self).stats().messages_received,
            o is Enqueued ==> final(self).queue_model(spec_priority_of(m.service@))
                == old(self).queue_model(spec_priority_of(m.service@)).push(m),
            o is Enqueued ==> forall|p: MessagePriority|
                p != spec_priority_of(m.service@) ==> #[trigger] final(self).queue_model(p)
                    == old(self).queue_model(p),
            !(o is Enqueued) ==> forall|p: MessagePriority| #[trigger] final(self).queue_model(
                p,
            ) == old(self).queue_model(p),
            (o is DroppedInvalid || o is DroppedDuplicate) ==> final(self).cache_model()
                == old(self).cache_model(),
            (o is DroppedSampling || o is DroppedQueueFull || o is Enqueued) ==> final(self).cache_model() == old(self).cache_model().insert(m.fingerprint(), now_micros),
    {
        if !m.is_valid() {
            self.monitor.record_dropped("invalid message");
            return SubmitOutcome::DroppedInvalid;
        }
        let fp = m.get_hash();
        if self.message_cache.check_and_update(fp, now_micros) {
            self.monitor.record_dropped("duplicate message");
            return SubmitOutcome::DroppedDuplicate;
        }
        let rate = self.sampling_config.get_rate(m.service.as_str());
        if !crate::sampling::sampling_decision(rate, m.service.as_str(), entropy_nanos) {
            self.monitor.record_dropped("sampling");
            return SubmitOutcome::DroppedSampling;
        }
        let priority = MessagePriority::from_service(m.service.as_str());
        let sent: bool = match priority {
            MessagePriority::Critical => self.critical_queue.try_send(m),
            MessagePriority::Normal => self.normal_queue.try_send(m),
            MessagePriority::Background => self.background_queue.try_send(m),
        };
        if sent {
            self.monitor.record_received();
            SubmitOutcome::Enqueued
        } else {
            self.monitor.record_dropped("queue full");
            SubmitOutcome::DroppedQueueFull
        }
    }

    /// Takes the oldest message of a priority, if any, handing it to the
    /// caller for processing. A dequeued message is accounted as in flight
    /// until [`Self::record_handler_outcome`] settles it.
    pub fn dequeue(&mut self, priority: MessagePriority) -> (r: Option<VehicleMessage>)
        requires
            old(self).wf(),
        ensures
            final(self).wf(),
            old(self).queue_model(priority).len() > 0 ==> r == Some(
                old(self).queue_model(priority)[0],
            ) && final(self).queue_model(priority) == old(self).queue_model(
                priority,
            ).drop_first() && final(self).in_flight_count() == old(self).in_flight_count() + 1,
            old(self).queue_model(priority).len() == 0 ==> r is None && final(self).queue_model(
                priority,
            ) == old(self).queue_model(priority) && final(self).in_flight_count() == old(self).in_flight_count(),
            forall|p: MessagePriority|
                p != priority ==> #[trigger] final(self).queue_model(p) == old(self).queue_model(
                    p,
                ),
            final(self).stats() == old(self).stats(),
            final(self).cache_model() == old(self).cache_model(),
            final(self).rates() == old(self).rates(),
            final(self).running() == old(self).running(),
            final(self).handler_error_count() == old(self).handler_error_count(),
    {
        let r = match priority {
            MessagePriority::Critical => self.critical_queue.try_recv(),
            MessagePriority::Normal => self.normal_queue.try_recv(),
            MessagePriority::Background => self.background_queue.try_recv(),
        };
        if r.is_some() {
            self.in_flight = self.in_flight + 1;
        }
        r
    }

    /// Settles one dequeued message: on success the message counts as
    /// processed and its latency joins the moving average; on failure it
    /// counts as dropped and as a handler error. The worker carries on
    /// either way.
    pub fn record_handler_outcome(&mut self, success: bool, elapsed_us: u64)
        requires
            old(self).wf(),
            old(self).in_flight_count() > 0,
            old(self).stats().messages_dropped < u64::MAX,
        ensures
            final(self).wf(),
            final(self).in_flight_count() == old(self).in_flight_count() - 1,
            success ==> final(self).stats().messages_processed == old(self).stats().messages_processed + 1 && final(self).stats().avg_processing_time_us
                == spec_moving_avg(old(self).stats().avg_processing_time_us, elapsed_us) && final(self).stats().messages_dropped == old(self).stats().messages_dropped && final(self).handler_error_count() == old(self).handler_error_count(),
            !success ==> final(self).stats().messages_dropped == old(self).stats().messages_dropped + 1 && final(self).stats().messages_processed == old(self).stats().messages_processed && final(self).handler_error_count() == old(self).handler_error_count() + 1 && final(self).stats().avg_processing_time_us == old(self).stats().avg_processing_time_us,
            final(self).stats().messages_received == old(self).stats().messages_received,
            forall|p: MessagePriority| #[trigger] final(self).queue_model(p) == old(self).queue_model(p),
            final(self).cache_model() == old(self).cache_model(),
            final(self).rates() == old(self).rates(),
            final(self).running() == old(self).running(),
    {
        if success {
            self.monitor.record_processed(elapsed_us);
        } else {
            self.monitor.record_dropped("processing error");
            self.handler_errors = self.handler_errors + 1;
        }
        self.in_flight = self.in_flight - 1;
    }

    /// Removes dedup-cache entries older than the retention window against
    /// the given clock and returns how many were removed. An entry younger
    /// than the retention window is never removed.
    pub fn evict_cache(&mut self, now_micros: u64) -> (removed: usize)
        requires
            old(self).wf(),
        ensures
            final(self).wf(),
            forall|fp: u64|
                old(self).cache_model().contains_key(fp) && crate::dedup::spec_keep_entry(
                    now_micros,
                    old(self).cache_model()[fp],
                ) ==> #[trigger] final(self).cache_model().contains_key(fp) && final(self).cache_model()[fp] == old(self).cache_model()[fp],
            forall|fp: u64| #[trigger] final(self).cache_model().contains_key(fp) ==> old(self).cache_model().contains_key(fp) && final(self).cache_model()[fp] == old(self).cache_model()[fp] && crate::dedup::spec_keep_entry(
                now_micros,
                old(self).cache_model()[fp],
            ),
            final(self).stats() == old(self).stats(),
            forall|p: MessagePriority| #[trigger] final(self).queue_model(p) == old(self).queue_model(p),
            final(self).rates() == old(self).rates(),
            final(self).running() == old(self).running(),
            final(self).in_flight_count() == old(self).in_flight_count(),
            final(self).handler_error_count() == old(self).handler_error_count(),
    {
        self.message_cache.evict_expired(now_micros)
    }

    /// Sets the lifecycle flag. Fails with a configuration error, changing
    /// nothing, when the coordinator is already running.
    pub fn start(&mut self) -> (r: Result<(), VehicleError>)
        ensures
            old(self).running() ==> (r matches Err(e) && e is ConfigError && *final(self) == *old(self)),
            !old(self).running() ==> r is Ok && final(self).running(),
            final(self).stats() == old(self).stats(),
            forall|p: MessagePriority| #[trigger] final(self).queue_model(p) == old(self).queue_model(p),
            final(self).cache_model() == old(self).cache_model(),
            final(self).rates() == old(self).rates(),
            final(self).in_flight_count() == old(self).in_flight_count(),
            final(self).handler_error_count() == old(self).handler_error_count(),
            final(self).wf() == old(self).wf(),
    {
        if self.is_running {
            return Err(VehicleError::ConfigError("Processor already running".to_owned()));
        }
        self.is_running = true;
        Ok(())
    }

    /// Clears the lifecycle flag; workers exit at their next loop head.
    pub fn stop(&mut self)
        ensures
            !final(self).running(),
            final(self).stats() == old(self).stats(),
            forall|p: MessagePriority| #[trigger] final(self).queue_model(p) == old(self).queue_model(p),
            final(self).cache_model() == old(self).cache_model(),
            final(self).rates() == old(self).rates(),
            final(self).in_flight_count() == old(self).in_flight_count(),
            final(self).handler_error_count() == old(self).handler_error_count(),
            final(self).wf() == old(self).wf(),
    {
        self.is_running = false;
    }

    /// Whether the coordinator is running.
    pub fn is_running(&self) -> (r: bool)
        ensures
            r == self.running(),
    {
        self.is_running
    }

    /// A copy of the current statistics.
    pub fn get_stats(&self) -> (r: ProcessingStats)
        ensures
            r == self.stats(),
    {
        self.monitor.get_stats()
    }

    /// The pipeline's health, derived from the current statistics.
    pub fn get_health_status(&self) -> (r: HealthStatus)
        ensures
            r == spec_health(self.stats()),
    {
        self.monitor.get_health_status()
    }

    /// Sets the sampling rate, in thousandths, for a service; the rate is
    /// clamped to at most 1000.
    pub fn update_sampling_config(&mut self, service: &str, rate_millis: u32)
        requires
            old(self).wf(),
        ensures
            final(self).wf(),
            final(self).rates() == old(self).rates().insert(
                service@,
                if rate_millis > 1000 {
                    1000u32
                } else {
                    rate_millis
                },
            ),
            final(self).stats() == old(self).stats(),
            forall|p: MessagePriority| #[trigger] final(self).queue_model(p) == old(self).queue_model(p),
            final(self).cache_model() == old(self).cache_model(),
            final(self).running() == old(self).running(),
            final(self).in_flight_count() == old(self).in_flight_count(),
            final(self).handler_error_count() == old(self).handler_error_count(),
    {
        self.sampling_config.set_rate(service, rate_millis);
    }

    /// A copy of the current sampling table.
    pub fn get_sampling_config(&self) -> (r: SamplingConfig)
        requires
            self.wf(),
        ensures
            r@ == self.rates(),
            r.wf(),
    {
        self.sampling_config.duplicate()
    }

    /// Decodes and routes one byte frame against the given clock readings.
    /// A frame that is not valid JSON fails with `JsonError`, one without
    /// the required members fails with `InvalidMessage`, and neither moves a
    /// counter; every other frame is accepted or counted as dropped.
    pub fn submit_at(&mut self, raw: &[u8], now_micros: u64, entropy_nanos: u64) -> (r: Result<
        (),
        VehicleError,
    >)
        requires
            old(self).wf(),
            old(self).stats().messages_received < u64::MAX,
            old(self).stats().messages_dropped < u64::MAX,
        ensures
            submit_transition(*old(self), *final(self), raw@, r),
            r is Ok ==> exists|m: VehicleMessage|
                {
                    let o = #[trigger] old(self).spec_route_outcome(m, now_micros, entropy_nanos);
                    &&& decoded_matches_frame(m, raw@)
                    &&& (o is Enqueued <==> final(self).stats().messages_received == old(self).stats().messages_received + 1)
                    &&& (o is Enqueued ==> final(self).queue_model(spec_priority_of(m.service@))
                        == old(self).queue_model(spec_priority_of(m.service@)).push(m))
                },
    {
        let m = match decode_frame(raw) {
            Ok(m) => m,
            Err(e) => {
                return Err(e);
            },
        };
        let o = self.route_message(m, now_micros, entropy_nanos);
        let _ = o;
        Ok(())
    }

    /// Decodes and routes one byte frame against the current wall clock.
    pub fn submit_message(&mut self, raw: &[u8]) -> (r: Result<(), VehicleError>)
        requires
            old(self).wf(),
            old(self).stats().messages_received < u64::MAX,
            old(self).stats().messages_dropped < u64::MAX,
        ensures
            submit_transition(*old(self), *final(self), raw@, r),
    {
        let now_micros = wall_clock_micros();
        let entropy_nanos = wall_clock_nanos();
        self.submit_at(raw, now_micros, entropy_nanos)
    }
}

impl Default for MessageProcessor {
    /// An idle coordinator, as [`MessageProcessor::new`] builds it.
    fn default() -> (r: Self)
        ensures
            r.wf(),
            !r.running(),
            r.stats().messages_received == 0,
            r.stats().messages_processed == 0,
            r.stats().messages_dropped == 0,
    {
        MessageProcessor::new()
    }
}

/// What one submission does to the coordinator: an error leaves it
/// untouched and happens exactly on undecodable frames; an accepted call
/// moves exactly one of `messages_received` and `messages_dropped` up by
/// one, grows the queues exactly on a received message, and touches nothing
/// else.
pub open spec fn submit_transition(
    pre: MessageProcessor,
    post: MessageProcessor,
    raw: Seq<u8>,
    r: Result<(), VehicleError>,
) -> bool {
    &&& post.wf()
    &&& (r matches Err(e) ==> post == pre && (e is JsonError || e is InvalidMessage))
    &&& ((r matches Err(e) && e is JsonError) <==> !json_wf(raw))
    &&& ((r matches Err(e) && e is InvalidMessage) <==> (json_wf(raw) && (json_service_member(
        raw,
    ) is None || !json_params_object(raw))))
    &&& (r is Ok <==> (json_wf(raw) && json_service_member(raw) is Some && json_params_object(
        raw,
    )))
    &&& (r is Ok ==> {
        &&& post.stats().messages_received + post.stats().messages_dropped == pre
            .stats().messages_received + pre.stats().messages_dropped + 1
        &&& post.stats().messages_received >= pre.stats().messages_received
        &&& post.stats().messages_dropped >= pre.stats().messages_dropped
        &&& post.stats().messages_processed == pre.stats().messages_processed
        &&& post.stats().avg_processing_time_us == pre.stats().avg_processing_time_us
        &&& post.queued_total() == pre.queued_total() + (
        post.stats().messages_received - pre.stats().messages_received)
        &&& post.in_flight_count() == pre.in_flight_count()
        &&& post.handler_error_count() == pre.handler_error_count()
        &&& post.running() == pre.running()
        &&& post.rates() == pre.rates()
    })
}

/// For any submitted byte frame, exactly one of these happens: an error is
/// returned and no counter moves; the frame is accepted and
/// `messages_received` grows by one; the frame is dropped and
/// `messages_dropped` grows by one.
pub proof fn lemma_submit_partition(
    pre: MessageProcessor,
    post: MessageProcessor,
    raw: Seq<u8>,
    r: Result<(), VehicleError>,
)
    requires
        submit_transition(pre, post, raw, r),
    ensures
        (r is Err && post.stats() == pre.stats()) || (r is Ok
            && post.stats().messages_received == pre.stats().messages_received + 1
            && post.stats().messages_dropped == pre.stats().messages_dropped) || (r is Ok
            && post.stats().messages_dropped == pre.stats().messages_dropped + 1
            && post.stats().messages_received == pre.stats().messages_received),
        !(r is Err && (post.stats().messages_received != pre.stats().messages_received
            || post.stats().messages_dropped != pre.stats().messages_dropped)),
        r is Ok ==> !(post.stats().messages_received > pre.stats().messages_received
            && post.stats().messages_dropped > pre.stats().messages_dropped),
{
}

/// Processed plus queued plus lost-to-handler-error never exceeds received.
pub proof fn lemma_processing_accounting(p: MessageProcessor)
    requires
        p.wf(),
    ensures
        p.stats().messages_processed + p.queued_total() + p.handler_error_count()
            <= p.stats().messages_received,
{
}

/// The dedup window, across two routings of one valid message: once the
/// first routing has stamped the cache at `t0`, routing the message again
/// within one second finds a duplicate, and routing it after at least one
/// second does not.
pub proof fn lemma_dedup_window_across_routes(
    pre: MessageProcessor,
    mid: MessageProcessor,
    m: VehicleMessage,
    t0: u64,
    t1: u64,
    entropy_nanos: u64,
)
    requires
        m.spec_valid(),
        t0 <= t1,
        mid.cache_model() == pre.cache_model().insert(m.fingerprint(), t0),
    ensures
        t1 - t0 < DEDUP_WINDOW_MICROS ==> mid.spec_route_outcome(
            m,
            t1,
            entropy_nanos,
        ) is DroppedDuplicate,
        t1 - t0 >= DEDUP_WINDOW_MICROS ==> !(mid.spec_route_outcome(
            m,
            t1,
            entropy_nanos,
        ) is DroppedDuplicate),
{
    crate::dedup::lemma_dedup_window(pre.cache_model(), m.fingerprint(), t0, t1);
}

} // verus!
