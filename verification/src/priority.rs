//! Priority classification of messages by their service tag.
use vstd::prelude::*;
use crate::str_eq;

verus! {

/// Priority tier of a message. The tier decides which bounded queue a
/// message is routed to and how often the queue's worker polls.
#[derive(Debug, Clone, Copy, PartialEq, Eq, Hash, Structural)]
pub enum MessagePriority {
    /// Safety-critical services; never shed by sampling defaults.
    Critical,
    /// Any service not explicitly classified.
    Normal,
    /// High-volume telemetry that tolerates shedding.
    Background,
}

/// The priority a service tag maps to. Total: every service string maps to
/// exactly one tier, unlisted services map to `Normal`.
pub open spec fn spec_priority_of(service: Seq<char>) -> MessagePriority {
    if service == "tracking"@ || service == "route"@ || service == "error_info"@ {
        MessagePriority::Critical
    } else if service == "traj"@ || service == "moving_obj"@ || service == "device"@
        || service == "loc_stat"@ {
        MessagePriority::Background
    } else {
        MessagePriority::Normal
    }
}

/// Queue capacity of each tier.
pub open spec fn spec_queue_capacity(p: MessagePriority) -> usize {
    match p {
        MessagePriority::Critical => 200,
        MessagePriority::Normal => 500,
        MessagePriority::Background => 100,
    }
}

/// Worker wake interval of each tier, in microseconds.
pub open spec fn spec_processing_interval_micros(p: MessagePriority) -> u64 {
    match p {
        MessagePriority::Critical => 100,
        MessagePriority::Normal => 1000,
        MessagePriority::Background => 10000,
    }
}

impl MessagePriority {
    /// Classifies a service tag into its priority tier.
    pub fn from_service(service: &str) -> (r: Self)
        ensures
            r == spec_priority_of(service@),
    {
        if str_eq(service, "tracking") || str_eq(service, "route")
            || str_eq(service, "error_info") {
            MessagePriority::Critical
        } else if str_eq(service, "traj") || str_eq(service, "moving_obj")
            || str_eq(service, "device") || str_eq(service, "loc_stat") {
            MessagePriority::Background
        } else {
            MessagePriority::Normal
        }
    }

    /// How many messages the tier's queue can hold.
    pub fn queue_capacity(&self) -> (r: usize)
        ensures
            r == spec_queue_capacity(*self),
    {
        match self {
            MessagePriority::Critical => 200,
            MessagePriority::Normal => 500,
            MessagePriority::Background => 100,
        }
    }

    /// How long the tier's worker sleeps when its queue is empty, in
    /// microseconds.
    pub fn processing_interval(&self) -> (r: u64)
        ensures
            r == spec_processing_interval_micros(*self),
    {
        match self {
            MessagePriority::Critical => 100,
            MessagePriority::Normal => 1000,
            MessagePriority::Background => 10000,
        }
    }
}

/// Classification is total: every service string, in particular every
/// non-empty one, maps to exactly one of the three priority tiers.
pub proof fn lemma_classification_total(service: Seq<char>)
    ensures
        spec_priority_of(service) is Critical || spec_priority_of(service) is Normal
            || spec_priority_of(service) is Background,
        !(spec_priority_of(service) is Critical && spec_priority_of(service) is Normal),
        !(spec_priority_of(service) is Critical && spec_priority_of(service) is Background),
        !(spec_priority_of(service) is Normal && spec_priority_of(service) is Background),
{
}

} // verus!
