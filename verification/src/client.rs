//! The transport-facing pieces the library models: the client
//! configuration, the connection state machine, the client's own counters,
//! and a mock socket that produces frames like a real transport would.
use vstd::prelude::*;
use vstd::utf8::encode_utf8;
use crate::codec::{dec_digits, push_dec, push_lit};
use crate::error::VehicleError;

verus! {

/// Configuration of the transport client. Durations are microseconds.
#[derive(Debug, Clone)]
pub struct NanomsgConfig {
    /// The URL the client listens on.
    pub listen_url: String,
    /// How long one receive may wait, in microseconds.
    pub receive_timeout_micros: u64,
    /// The pause between reconnect attempts, in microseconds.
    pub reconnect_interval_micros: u64,
    /// How many reconnect attempts one connection round may make.
    pub max_reconnect_attempts: u32,
    /// The receive buffer size, in bytes.
    pub buffer_size: usize,
    /// How many frames one batch may take.
    pub batch_size: usize,
    /// How long one batch may run, in microseconds.
    pub batch_timeout_micros: u64,
}

impl Default for NanomsgConfig {
    /// The default transport configuration.
    fn default() -> (r: Self)
        ensures
            r.listen_url@ == "ipc:///tmp/vehicle_nn.ipc"@,
            r.receive_timeout_micros == 100000,
            r.reconnect_interval_micros == 1000000,
            r.max_reconnect_attempts == 10,
            r.buffer_size == 8192,
            r.batch_size == 100,
            r.batch_timeout_micros == 10000,
    {
        NanomsgConfig {
            listen_url: "ipc:///tmp/vehicle_nn.ipc".to_owned(),
            receive_timeout_micros: 100000,
            reconnect_interval_micros: 1000000,
            max_reconnect_attempts: 10,
            buffer_size: 8192,
            batch_size: 100,
            batch_timeout_micros: 10000,
        }
    }
}

impl NanomsgConfig {
    /// Whether another reconnect attempt is allowed after `attempts` tries.
    pub fn may_retry(&self, attempts: u32) -> (r: bool)
        ensures
            r == (attempts < self.max_reconnect_attempts),
    {
        attempts < self.max_reconnect_attempts
    }
}

/// The connection state of the transport client.
#[derive(Debug, Clone, Copy, PartialEq, Eq, Structural)]
pub enum ConnectionState {
    /// No connection; the manager will attempt one.
    Disconnected,
    /// An attempt is under way.
    Connecting,
    /// The transport is up.
    Connected,
    /// The last attempt or receive failed; the manager waits, then starts
    /// over.
    Error,
}

/// One decision of the connection manager: a disconnected client starts
/// connecting; a connecting client ends up connected or in error according
/// to the attempt's outcome; an errored client goes back to disconnected
/// after its wait; a connected client stays connected.
pub fn connection_next(state: ConnectionState, attempt_ok: bool) -> (r: ConnectionState)
    ensures
        state is Disconnected ==> r is Connecting,
        state is Connecting && attempt_ok ==> r is Connected,
        state is Connecting && !attempt_ok ==> r is Error,
        state is Error ==> r is Disconnected,
        state is Connected ==> r is Connected,
{
    match state {
        ConnectionState::Disconnected => ConnectionState::Connecting,
        ConnectionState::Connecting => {
            if attempt_ok {
                ConnectionState::Connected
            } else {
                ConnectionState::Error
            }
        },
        ConnectionState::Error => ConnectionState::Disconnected,
        ConnectionState::Connected => ConnectionState::Connected,
    }
}

/// Counters of the transport client. The average batch size is kept in
/// thousandths of a message, weight 1/10 toward the newest batch.
#[derive(Debug, Clone, Copy)]
pub struct NanomsgStats {
    /// Payload bytes received.
    pub bytes_received: u64,
    /// Frames received and submitted.
    pub messages_received: u64,
    /// Connection attempts made.
    pub connection_attempts: u32,
    /// Successful reconnects after the first connect.
    pub reconnections: u32,
    /// Wall clock of the latest frame, microseconds since the Unix epoch.
    pub last_message_time: Option<u64>,
    /// Moving average of frames per batch, in thousandths.
    pub avg_batch_size_millis: u64,
}

impl Default for NanomsgStats {
    /// Zeroed transport counters.
    fn default() -> (r: Self)
        ensures
            r.bytes_received == 0,
            r.messages_received == 0,
            r.connection_attempts == 0,
            r.reconnections == 0,
            r.last_message_time is None,
            r.avg_batch_size_millis == 0,
    {
        NanomsgStats {
            bytes_received: 0,
            messages_received: 0,
            connection_attempts: 0,
            reconnections: 0,
            last_message_time: None,
            avg_batch_size_millis: 0,
        }
    }
}

impl NanomsgStats {
    /// Counts one received frame of `frame_bytes` bytes at `now_micros`.
    pub fn record_message(&mut self, frame_bytes: u64, now_micros: u64)
        requires
            old(self).bytes_received + frame_bytes <= u64::MAX,
            old(self).messages_received < u64::MAX,
        ensures
            final(self).bytes_received == old(self).bytes_received + frame_bytes,
            final(self).messages_received == old(self).messages_received + 1,
            final(self).last_message_time == Some(now_micros),
            final(self).connection_attempts == old(self).connection_attempts,
            final(self).reconnections == old(self).reconnections,
            final(self).avg_batch_size_millis == old(self).avg_batch_size_millis,
    {
        self.bytes_received = self.bytes_received + frame_bytes;
        self.messages_received = self.messages_received + 1;
        self.last_message_time = Some(now_micros);
    }

    /// Folds one batch's frame count into the moving average.
    pub fn record_batch(&mut self, batch_count: u64)
        requires
            batch_count <= 1000000,
        ensures
            final(self).avg_batch_size_millis == (
            if old(self).avg_batch_size_millis == 0 {
                batch_count * 1000
            } else {
                (old(self).avg_batch_size_millis * 9 + batch_count * 1000) / 10
            }),
            final(self).bytes_received == old(self).bytes_received,
            final(self).messages_received == old(self).messages_received,
            final(self).connection_attempts == old(self).connection_attempts,
            final(self).reconnections == old(self).reconnections,
            final(self).last_message_time == old(self).last_message_time,
    {
        let sample: u64 = batch_count * 1000;
        if self.avg_batch_size_millis == 0 {
            self.avg_batch_size_millis = sample;
        } else {
            let wide: u128 = (self.avg_batch_size_millis as u128) * 9 + (sample as u128);
            let avg: u128 = wide / 10;
            proof {
                assert(avg <= u64::MAX) by {
                    assert(wide <= (u64::MAX as u128) * 10);
                };
            }
            self.avg_batch_size_millis = avg as u64;
        }
    }

    /// Counts one connection attempt.
    pub fn record_connection_attempt(&mut self)
        requires
            old(self).connection_attempts < u32::MAX,
        ensures
            final(self).connection_attempts == old(self).connection_attempts + 1,
            final(self).bytes_received == old(self).bytes_received,
            final(self).messages_received == old(self).messages_received,
            final(self).reconnections == old(self).reconnections,
            final(self).last_message_time == old(self).last_message_time,
            final(self).avg_batch_size_millis == old(self).avg_batch_size_millis,
    {
        self.connection_attempts = self.connection_attempts + 1;
    }

    /// Counts one successful reconnect.
    pub fn record_reconnection(&mut self)
        requires
            old(self).reconnections < u32::MAX,
        ensures
            final(self).reconnections == old(self).reconnections + 1,
            final(self).bytes_received == old(self).bytes_received,
            final(self).messages_received == old(self).messages_received,
            final(self).connection_attempts == old(self).connection_attempts,
            final(self).last_message_time == old(self).last_message_time,
            final(self).avg_batch_size_millis == old(self).avg_batch_size_millis,
    {
        self.reconnections = self.reconnections + 1;
    }
}

/// The service tag of the mock socket's next frame: every fifth frame is a
/// tracking message, the rest are trajectory telemetry.
pub open spec fn spec_mock_service(count: u64) -> Seq<char> {
    if count % 5 == 0 {
        "tracking"@
    } else {
        "traj"@
    }
}

/// The frame the mock socket produces for its `count`-th message at `secs`
/// seconds since the Unix epoch.
pub open spec fn spec_mock_frame(count: u64, secs: u64) -> Seq<u8> {
    encode_utf8("{\"service\":\""@) + encode_utf8(spec_mock_service(count)) + encode_utf8(
        "\",\"params\":{\"vin\":\"MOCK_VIN_"@,
    ) + dec_digits(count % 3) + encode_utf8("\",\"timestamp\":"@) + dec_digits(secs)
        + encode_utf8(",\"data\":{\"x\":"@) + dec_digits(count % 1000) + encode_utf8(
        ",\"y\":"@,
    ) + dec_digits(((count % 1000) * 2) as u64) + encode_utf8(",\"speed\":"@) + dec_digits((30 + count % 20) as u64) + encode_utf8("}}}"@)
}

/// A mock transport socket: it accepts a bind, then produces frames, one
/// per call, reporting no message every tenth call, as a quiet transport
/// would.
#[derive(Debug)]
pub struct MockNanomsgSocket {
    /// The URL the socket is bound to.
    pub url: String,
    /// Whether the socket is bound.
    pub is_connected: bool,
    /// How many receives have been attempted since the bind.
    pub message_count: u64,
}

impl MockNanomsgSocket {
    /// An unbound mock socket.
    pub fn new() -> (r: Self)
        ensures
            r.url@ == Seq::<char>::empty(),
            !r.is_connected,
            r.message_count == 0,
    {
        MockNanomsgSocket { url: String::new(), is_connected: false, message_count: 0 }
    }

    /// Binds the socket to a URL; the mock transport always succeeds.
    pub fn bind(&mut self, url: &str) -> (r: Result<(), VehicleError>)
        ensures
            r is Ok,
            final(self).url@ == url@,
            final(self).is_connected,
            final(self).message_count == old(self).message_count,
    {
        self.url = url.to_owned();
        self.is_connected = true;
        Ok(())
    }

    /// Receives the next mock frame. An unbound socket fails; every tenth
    /// call reports that no message is available; every other call returns
    /// the frame `spec_mock_frame` describes, stamped with the current wall
    /// clock.
    pub fn recv(&mut self) -> (r: Result<Vec<u8>, VehicleError>)
        requires
            old(self).message_count < u64::MAX,
        ensures
            !old(self).is_connected ==> r is Err && *final(self) == *old(self),
            old(self).is_connected ==> {
                &&& final(self).message_count == old(self).message_count + 1
                &&& final(self).is_connected
                &&& final(self).url == old(self).url
                &&& ((old(self).message_count + 1) % 10 == 0 ==> r is Err)
                &&& ((old(self).message_count + 1) % 10 != 0 ==> (r matches Ok(v)
                    && exists|secs: u64|
                    v@ == #[trigger] spec_mock_frame((old(self).message_count + 1) as u64, secs)))
            },
    {
        if !self.is_connected {
            return Err(VehicleError::NanomsgError("Socket not connected".to_owned()));
        }
        self.message_count = self.message_count + 1;
        let count = self.message_count;
        if count % 10 == 0 {
            return Err(VehicleError::NanomsgError("No message available".to_owned()));
        }
        let secs = crate::clock::wall_clock_micros() / 1000000;
        let mut out: Vec<u8> = Vec::new();
        push_lit(&mut out, "{\"service\":\"");
        if count % 5 == 0 {
            push_lit(&mut out, "tracking");
        } else {
            push_lit(&mut out, "traj");
        }
        push_lit(&mut out, "\",\"params\":{\"vin\":\"MOCK_VIN_");
        push_dec(&mut out, count % 3);
        push_lit(&mut out, "\",\"timestamp\":");
        push_dec(&mut out, secs);
        push_lit(&mut out, ",\"data\":{\"x\":");
        push_dec(&mut out, count % 1000);
        push_lit(&mut out, ",\"y\":");
        push_dec(&mut out, (count % 1000) * 2);
        push_lit(&mut out, ",\"speed\":");
        push_dec(&mut out, 30 + count % 20);
        push_lit(&mut out, "}}}");
        proof {
            assert(out@ =~= spec_mock_frame(count, secs));
        }
        Ok(out)
    }

    /// Unbinds the socket.
    pub fn close(&mut self)
        ensures
            !final(self).is_connected,
            final(self).url == old(self).url,
            final(self).message_count == old(self).message_count,
    {
        self.is_connected = false;
    }
}

} // verus!
