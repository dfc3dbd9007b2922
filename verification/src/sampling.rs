//! Per-service sampling rates and the deterministic-from-input acceptance
//! decision.
//!
//! Rates are kept in thousandths: 0 accepts nothing, 1000 accepts
//! everything. A service without an entry is fully accepted.
use vstd::prelude::*;
use vstd::utf8::encode_utf8;
use crate::message::{fnv_bytes, fnv_word, FNV_OFFSET};
use crate::clock::wall_clock_nanos;
use crate::str_eq;

verus! {

/// Full acceptance, in thousandths.
pub const RATE_FULL_MILLIS: u32 = 1000;

/// The rate used for a service with no entry.
pub open spec fn spec_default_rate() -> u32 {
    1000
}

/// The map a rate table's entries denote, later entries winning.
pub open spec fn entries_map(s: Seq<(String, u32)>) -> Map<Seq<char>, u32>
    decreases s.len(),
{
    if s.len() == 0 {
        Map::empty()
    } else {
        entries_map(s.drop_last()).insert(s.last().0@, s.last().1)
    }
}

/// No two entries share a key.
pub open spec fn entries_unique(s: Seq<(String, u32)>) -> bool {
    forall|i: int, j: int| 0 <= i < j < s.len() ==> s[i].0@ != s[j].0@
}

/// A key is in the denoted map exactly when some entry holds it.
proof fn lemma_entries_map_domain(s: Seq<(String, u32)>, k: Seq<char>)
    ensures
        entries_map(s).contains_key(k) <==> exists|i: int| 0 <= i < s.len() && s[i].0@ == k,
    decreases s.len(),
{
    if s.len() > 0 {
        lemma_entries_map_domain(s.drop_last(), k);
        if s.last().0@ == k {
            assert(s[s.len() - 1].0@ == k);
        } else if entries_map(s).contains_key(k) {
            let i = choose|i: int| 0 <= i < s.drop_last().len() && s.drop_last()[i].0@ == k;
            assert(s[i].0@ == k);
        } else if exists|i: int| 0 <= i < s.len() && s[i].0@ == k {
            let i = choose|i: int| 0 <= i < s.len() && s[i].0@ == k;
            assert(s.drop_last()[i].0@ == k);
        }
    }
}

/// With unique keys, each entry's key maps to that entry's rate.
proof fn lemma_entries_map_get(s: Seq<(String, u32)>, i: int)
    requires
        entries_unique(s),
        0 <= i < s.len(),
    ensures
        entries_map(s).contains_key(s[i].0@),
        entries_map(s)[s[i].0@] == s[i].1,
    decreases s.len(),
{
    if i == s.len() - 1 {
    } else {
        assert(s[i].0@ != s.last().0@);
        assert(s.drop_last()[i] == s[i]);
        lemma_entries_map_get(s.drop_last(), i);
    }
}

/// With unique keys, replacing one entry's rate denotes a map insert on that
/// entry's key.
proof fn lemma_entries_map_update(s: Seq<(String, u32)>, i: int, e: (String, u32))
    requires
        entries_unique(s),
        0 <= i < s.len(),
        e.0@ == s[i].0@,
    ensures
        entries_map(s.update(i, e)) =~= entries_map(s).insert(e.0@, e.1),
    decreases s.len(),
{
    let t = s.update(i, e);
    if i == s.len() - 1 {
        assert(t.drop_last() =~= s.drop_last());
        assert(t.last() == e);
    } else {
        assert(t.last() == s.last());
        assert(t.drop_last() =~= s.drop_last().update(i, e));
        assert(s.drop_last()[i] == s[i]);
        lemma_entries_map_update(s.drop_last(), i, e);
        assert(s[i].0@ != s.last().0@);
        assert(entries_map(t) =~= entries_map(s).insert(e.0@, e.1));
    }
}

/// Per-service acceptance rates, in thousandths.
#[derive(Debug, Clone)]
pub struct SamplingConfig {
    /// The rate entries; at most one entry per service.
    pub rates: Vec<(String, u32)>,
}

impl SamplingConfig {
    /// The rate table as a map from service tag to rate.
    pub open spec fn view(&self) -> Map<Seq<char>, u32> {
        entries_map(self.rates@)
    }

    /// Well-formed: at most one entry per service.
    pub open spec fn wf(&self) -> bool {
        entries_unique(self.rates@)
    }

    /// The rate that applies to a service: its entry, or full acceptance
    /// when it has none.
    pub open spec fn spec_rate_of(&self, service: Seq<char>) -> u32 {
        if self.view().contains_key(service) {
            self.view()[service]
        } else {
            spec_default_rate()
        }
    }

    /// An empty rate table: every service fully accepted.
    pub fn empty() -> (r: Self)
        ensures
            r@ == Map::<Seq<char>, u32>::empty(),
            r.wf(),
    {
        SamplingConfig { rates: Vec::new() }
    }

    /// The rate for a service, in thousandths.
    pub fn get_rate(&self, service: &str) -> (r: u32)
        requires
            self.wf(),
        ensures
            r == self.spec_rate_of(service@),
    {
        let n = self.rates.len();
        let mut i: usize = 0;
        while i < n
            invariant
                self.wf(),
                n == self.rates@.len(),
                i <= n,
                forall|j: int| 0 <= j < i ==> #[trigger] self.rates@[j].0@ != service@,
            decreases n - i,
        {
            if str_eq(self.rates[i].0.as_str(), service) {
                let r = self.rates[i].1;
                proof {
                    lemma_rate_lookup(self.rates@, i as int, service@);
                }
                return r;
            }
            i = i + 1;
        }
        proof {
            lemma_entries_map_domain(self.rates@, service@);
        }
        RATE_FULL_MILLIS
    }

    /// Sets the rate for a service, clamping it to at most 1000.
    pub fn set_rate(&mut self, service: &str, rate_millis: u32)
        requires
            old(self).wf(),
        ensures
            final(self).wf(),
            final(self)@ == old(self)@.insert(
                service@,
                if rate_millis > 1000 {
                    1000u32
                } else {
                    rate_millis
                },
            ),
    {
        let clamped: u32 = if rate_millis > 1000 {
            1000
        } else {
            rate_millis
        };
        let n = self.rates.len();
        let mut i: usize = 0;
        while i < n
            invariant
                *self == *old(self),
                old(self).wf(),
                clamped == if rate_millis > 1000 {
                    1000u32
                } else {
                    rate_millis
                },
                n == self.rates@.len(),
                i <= n,
                forall|j: int| 0 <= j < i ==> #[trigger] self.rates@[j].0@ != service@,
            decreases n - i,
        {
            if str_eq(self.rates[i].0.as_str(), service) {
                let key = self.rates[i].0.clone();
                let entry = (key, clamped);
                let ghost e = entry;
                proof {
                    lemma_entries_map_update(self.rates@, i as int, e);
                }
                self.rates.set(i, entry);
                proof {
                    let t = self.rates@;
                    let s = old(self).rates@;
                    assert(t == s.update(i as int, e));
                    assert forall|j: int, l: int| 0 <= j < l < t.len() implies t[j].0@
                        != t[l].0@ by {
                        assert(t[j].0@ == s[j].0@);
                        assert(t[l].0@ == s[l].0@);
                    }
                    assert(self.wf());
                    assert(self@ =~= old(self)@.insert(service@, clamped));
                }
                return ;
            }
            i = i + 1;
        }
        let key: String = service.to_owned();
        self.rates.push((key, clamped));
        proof {
            assert(self.rates@.drop_last() =~= old(self).rates@);
            assert(self@ =~= old(self)@.insert(service@, clamped));
        }
    }

    /// Rebuilds the rate table entry by entry; the copy denotes the same map.
    pub fn duplicate(&self) -> (r: Self)
        ensures
            r@ == self@,
            r.wf() == self.wf(),
    {
        let n = self.rates.len();
        let mut out: Vec<(String, u32)> = Vec::new();
        let mut i: usize = 0;
        while i < n
            invariant
                n == self.rates@.len(),
                i <= n,
                out@ =~= self.rates@.take(i as int),
            decreases n - i,
        {
            out.push((self.rates[i].0.clone(), self.rates[i].1));
            proof {
                assert(out@ =~= self.rates@.take(i as int + 1));
            }
            i = i + 1;
        }
        proof {
            assert(out@ =~= self.rates@);
        }
        SamplingConfig { rates: out }
    }
}

/// With unique keys, the entry found by a scan gives the map's rate.
proof fn lemma_rate_lookup(s: Seq<(String, u32)>, i: int, k: Seq<char>)
    requires
        0 <= i < s.len(),
        s[i].0@ == k,
        forall|j: int, l: int| 0 <= j < l < s.len() ==> s[j].0@ != s[l].0@,
    ensures
        entries_map(s).contains_key(k),
        entries_map(s)[k] == s[i].1,
{
    lemma_entries_map_get(s, i);
}

/// The default sampling table: safety-critical and configuration services
/// fully accepted, high-volume telemetry shed to between 5% and 30%.
pub open spec fn spec_default_rates() -> Map<Seq<char>, u32> {
    Map::<Seq<char>, u32>::empty().insert("tracking"@, 1000).insert("route"@, 1000).insert(
        "error_info"@,
        1000,
    ).insert("vcc"@, 1000).insert("uos_config"@, 1000).insert("traj"@, 100).insert(
        "moving_obj"@,
        50,
    ).insert("device"@, 200).insert("loc_stat"@, 300)
}

impl Default for SamplingConfig {
    /// The default sampling table.
    fn default() -> (r: Self)
        ensures
            r.wf(),
            r@ == spec_default_rates(),
    {
        let mut c = SamplingConfig::empty();
        c.set_rate("tracking", 1000);
        c.set_rate("route", 1000);
        c.set_rate("error_info", 1000);
        c.set_rate("vcc", 1000);
        c.set_rate("uos_config", 1000);
        c.set_rate("traj", 100);
        c.set_rate("moving_obj", 50);
        c.set_rate("device", 200);
        c.set_rate("loc_stat", 300);
        c
    }
}

/// The hash that drives a sampling decision: the service tag folded together
/// with a nanosecond clock reading.
pub open spec fn spec_sample_hash(service: Seq<char>, entropy_nanos: u64) -> u64 {
    fnv_word(fnv_bytes(FNV_OFFSET, encode_utf8(service)), entropy_nanos)
}

/// Whether a message of the given service is accepted, for the given rate
/// and entropy: full rates always accept, otherwise the hash picks a value
/// in [0, 1000) that must fall below the rate.
pub open spec fn spec_sampling_decision(rate_millis: u32, service: Seq<char>, entropy_nanos: u64) -> bool {
    if rate_millis >= 1000 {
        true
    } else {
        spec_sample_hash(service, entropy_nanos) % 1000 < rate_millis as u64
    }
}

/// Decides acceptance for a service at the given rate from the given entropy.
pub fn sampling_decision(rate_millis: u32, service: &str, entropy_nanos: u64) -> (r: bool)
    ensures
        r == spec_sampling_decision(rate_millis, service@, entropy_nanos),
{
    if rate_millis >= 1000 {
        return true;
    }
    let h = crate::message::hash_str_with_word(service, entropy_nanos);
    h % 1000 < rate_millis as u64
}

impl SamplingConfig {
    /// Decides whether a message of the given service should be processed,
    /// drawing entropy from the wall clock. A full rate always accepts; a
    /// zero rate never does.
    pub fn should_process(&self, service: &str) -> (r: bool)
        requires
            self.wf(),
        ensures
            self.spec_rate_of(service@) >= 1000 ==> r == true,
            self.spec_rate_of(service@) == 0 ==> r == false,
            exists|nanos: u64| r == spec_sampling_decision(
                self.spec_rate_of(service@),
                service@,
                nanos,
            ),
    {
        let rate = self.get_rate(service);
        let nanos = wall_clock_nanos();
        let r = sampling_decision(rate, service, nanos);
        proof {
            assert(r == spec_sampling_decision(self.spec_rate_of(service@), service@, nanos));
        }
        r
    }
}

/// A rate of exactly 1000 thousandths accepts every message, whatever the
/// entropy; a rate of exactly 0 accepts none.
pub proof fn lemma_sampling_extremes(service: Seq<char>, entropy_nanos: u64)
    ensures
        spec_sampling_decision(1000, service, entropy_nanos) == true,
        spec_sampling_decision(0, service, entropy_nanos) == false,
{
}

/// Setting a service's rate and reading it back returns the written rate
/// clamped to at most 1000, whatever the table held before.
pub proof fn lemma_set_then_get(c0: SamplingConfig, c1: SamplingConfig, service: Seq<char>, rate_millis: u32)
    requires
        c1@ == c0@.insert(
            service,
            if rate_millis > 1000 {
                1000u32
            } else {
                rate_millis
            },
        ),
    ensures
        c1.spec_rate_of(service) == if rate_millis > 1000 {
            1000u32
        } else {
            rate_millis
        },
{
}

} // verus!
