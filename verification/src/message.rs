//! The logical message record, its validity predicate and its dedup
//! fingerprint.
use vstd::prelude::*;
use vstd::utf8::encode_utf8;
use vstd::wrapping::u64_specs;

verus! {

/// The 64-bit FNV-1a offset basis.
pub const FNV_OFFSET: u64 = 0xcbf29ce484222325;

/// The 64-bit FNV-1a prime.
pub const FNV_PRIME: u64 = 0x100000001b3;

/// One FNV-1a step: fold one byte into the running hash.
pub open spec fn fnv_step(h: u64, b: u8) -> u64 {
    u64_specs::wrapping_mul(h ^ (b as u64), FNV_PRIME)
}

/// Folds a byte sequence into the running hash, front to back.
pub open spec fn fnv_bytes(h: u64, s: Seq<u8>) -> u64
    decreases s.len(),
{
    if s.len() == 0 {
        h
    } else {
        fnv_bytes(fnv_step(h, s[0]), s.drop_first())
    }
}

/// Folds a whole 64-bit word into the running hash.
pub open spec fn fnv_word(h: u64, x: u64) -> u64 {
    u64_specs::wrapping_mul(h ^ x, FNV_PRIME)
}

/// The dedup fingerprint of a message: a 64-bit hash of its service tag,
/// vehicle identifier, whole-second timestamp and canonical data text. The
/// fractional part of the timestamp is deliberately discarded so that bursts
/// of the same sample at sub-second spacing collide.
pub open spec fn spec_fingerprint(
    service: Seq<char>,
    vin: Seq<char>,
    ts_sec: u64,
    data: Option<Seq<char>>,
) -> u64 {
    let h0 = fnv_bytes(FNV_OFFSET, encode_utf8(service));
    let h1 = fnv_bytes(h0, encode_utf8(vin));
    let h2 = fnv_word(h1, ts_sec);
    match data {
        Some(d) => fnv_bytes(h2, encode_utf8(d)),
        None => h2,
    }
}

/// Folds a byte slice into the running hash.
fn fnv_push(h0: u64, bytes: &[u8]) -> (r: u64)
    ensures
        r == fnv_bytes(h0, bytes@),
{
    let mut h = h0;
    let mut i: usize = 0;
    proof {
        assert(bytes@.skip(0) =~= bytes@);
    }
    while i < bytes.len()
        invariant
            i <= bytes@.len(),
            fnv_bytes(h, bytes@.skip(i as int)) == fnv_bytes(h0, bytes@),
        decreases bytes@.len() - i,
    {
        let b = bytes[i];
        proof {
            assert(bytes@.skip(i as int)[0] == bytes@[i as int]);
            assert(bytes@.skip(i as int).drop_first() =~= bytes@.skip(i as int + 1));
        }
        h = (h ^ (b as u64)).wrapping_mul(FNV_PRIME);
        i = i + 1;
    }
    proof {
        assert(bytes@.skip(i as int) =~= Seq::<u8>::empty());
    }
    h
}

/// Folds a 64-bit word into the running hash.
fn fnv_push_word(h: u64, x: u64) -> (r: u64)
    ensures
        r == fnv_word(h, x),
{
    (h ^ x).wrapping_mul(FNV_PRIME)
}

/// Hashes a string's bytes and then one 64-bit word, from the FNV offset.
pub fn hash_str_with_word(s: &str, x: u64) -> (r: u64)
    ensures
        r == fnv_word(fnv_bytes(FNV_OFFSET, encode_utf8(s@)), x),
{
    let h = fnv_push(FNV_OFFSET, s.as_bytes());
    fnv_push_word(h, x)
}

/// The character sequence an optional string holds, when it holds one.
pub open spec fn option_string_view(o: Option<String>) -> Option<Seq<char>> {
    match o {
        Some(s) => Some(s@),
        None => None,
    }
}

/// A parsed vehicle telemetry message. Timestamps are microseconds since the
/// Unix epoch; `data` holds the canonical (keys sorted, no whitespace) JSON
/// text of the message's data payload, when one was present.
#[derive(Debug, Clone)]
pub struct VehicleMessage {
    /// Service tag, e.g. `tracking` or `traj`.
    pub service: String,
    /// Vehicle identifier.
    pub vin: String,
    /// Message timestamp in microseconds since the Unix epoch.
    pub timestamp_micros: u64,
    /// Canonical JSON text of the data payload, if the message carried one.
    pub data: Option<String>,
    /// Delivery channel; defaults to the service tag.
    pub channel: String,
    /// Optional run scene tag.
    pub run_scene: Option<String>,
    /// Canonical JSON text of the whole params object the message arrived
    /// with, members the pipeline does not interpret included; `None` on a
    /// record built directly rather than decoded.
    pub params_canonical: Option<String>,
}

impl VehicleMessage {
    /// The data payload as a character sequence, when present.
    pub open spec fn data_view(self) -> Option<Seq<char>> {
        option_string_view(self.data)
    }

    /// The run scene tag as a character sequence, when present.
    pub open spec fn run_scene_view(self) -> Option<Seq<char>> {
        option_string_view(self.run_scene)
    }

    /// The params text as a character sequence, when present.
    pub open spec fn params_view(self) -> Option<Seq<char>> {
        option_string_view(self.params_canonical)
    }

    /// A message is valid when its service and vehicle identifier are
    /// non-empty, its timestamp is positive, and it carries a data payload.
    pub open spec fn spec_valid(self) -> bool {
        &&& self.service@.len() > 0
        &&& self.vin@.len() > 0
        &&& self.timestamp_micros > 0
        &&& self.data is Some
    }

    /// The message's dedup fingerprint.
    pub open spec fn fingerprint(self) -> u64 {
        spec_fingerprint(
            self.service@,
            self.vin@,
            (self.timestamp_micros / 1000000) as u64,
            self.data_view(),
        )
    }

    /// Creates a message with the given service, vehicle identifier and
    /// timestamp, no data payload and no run scene; the channel defaults to
    /// the service tag.
    pub fn new(service: String, vin: String, timestamp_micros: u64) -> (r: Self)
        ensures
            r.service == service,
            r.vin == vin,
            r.timestamp_micros == timestamp_micros,
            r.data is None,
            r.channel == service,
            r.run_scene is None,
            r.params_canonical is None,
    {
        let channel = service.clone();
        VehicleMessage {
            service,
            vin,
            timestamp_micros,
            data: None,
            channel,
            run_scene: None,
            params_canonical: None,
        }
    }

    /// Computes the message's dedup fingerprint.
    pub fn get_hash(&self) -> (r: u64)
        ensures
            r == self.fingerprint(),
    {
        let mut h = fnv_push(FNV_OFFSET, self.service.as_str().as_bytes());
        h = fnv_push(h, self.vin.as_str().as_bytes());
        h = fnv_push_word(h, self.timestamp_micros / 1000000);
        match &self.data {
            Some(d) => fnv_push(h, d.as_str().as_bytes()),
            None => h,
        }
    }

    /// Decides the message's validity.
    pub fn is_valid(&self) -> (r: bool)
        ensures
            r == self.spec_valid(),
    {
        !self.service.as_str().is_empty() && !self.vin.as_str().is_empty()
            && self.timestamp_micros > 0 && self.data.is_some()
    }
}

/// Two messages whose service, vehicle identifier, whole-second timestamp and
/// data payload agree have the same fingerprint.
pub proof fn lemma_fingerprint_deterministic(a: VehicleMessage, b: VehicleMessage)
    requires
        a.service@ == b.service@,
        a.vin@ == b.vin@,
        a.timestamp_micros / 1000000 == b.timestamp_micros / 1000000,
        a.data_view() == b.data_view(),
    ensures
        a.fingerprint() == b.fingerprint(),
{
}

} // verus!
