//! Decoding a raw byte frame into a message record.
//!
//! Parsing is serde_json's; since its result is a function of the bytes
//! alone, each thing the decoder reads from a frame is given a name
//! (`json_wf`, `json_service_member`, …), tied to the bytes by one trusted
//! probing wrapper per name. The decoder itself is verified against those
//! names: its contract says exactly on which frames each error comes, when
//! decoding succeeds, and how the record's fields relate to the frame's
//! members.
use vstd::prelude::*;
use crate::clock::wall_clock_micros;
use crate::error::VehicleError;
use crate::message::{option_string_view, VehicleMessage};

verus! {

/// Whether a byte frame is well-formed JSON, exactly as serde_json's parser
/// decides it.
pub uninterp spec fn json_wf(raw: Seq<u8>) -> bool;

/// The frame's top-level `service` member, when the frame parses to a value
/// with a string member of that name; nothing otherwise.
pub uninterp spec fn json_service_member(raw: Seq<u8>) -> Option<Seq<char>>;

/// Whether the frame parses to a value whose `params` member is a JSON
/// object.
pub uninterp spec fn json_params_object(raw: Seq<u8>) -> bool;

/// The frame's `params.vin` member, when it is a string; nothing otherwise.
pub uninterp spec fn json_vin_member(raw: Seq<u8>) -> Option<Seq<char>>;

/// The frame's `params.timestamp` member as whole microseconds, when it is
/// a number; nothing otherwise. A number that is not a positive finite
/// count of seconds reads as 0; one beyond the representable range
/// saturates.
pub uninterp spec fn json_timestamp_micros(raw: Seq<u8>) -> Option<u64>;

/// The canonical text of the frame's `params.data` member, when `params`
/// has one; nothing otherwise.
pub uninterp spec fn json_data_canonical(raw: Seq<u8>) -> Option<Seq<char>>;

/// The frame's `params.run_scene` member, when it is a string; nothing
/// otherwise.
pub uninterp spec fn json_run_scene_member(raw: Seq<u8>) -> Option<Seq<char>>;

/// The canonical text of the frame's whole `params` member, when the frame
/// has one; nothing otherwise.
pub uninterp spec fn json_params_canonical(raw: Seq<u8>) -> Option<Seq<char>>;

/// Relies on serde_json::from_slice: parses exactly the frames that are
/// well-formed JSON; which frames those are is named `json_wf`. A rejected
/// frame comes back with serde_json's description of the failure.
#[verifier::external_body]
fn parse_json(raw: &[u8]) -> (r: Result<(), String>)
    ensures
        r is Ok <==> json_wf(raw@),
{
    match serde_json::from_slice::<serde_json::Value>(raw) {
        Ok(_) => Ok(()),
        Err(e) => Err(e.to_string()),
    }
}

/// Relies on serde_json::from_slice, Value::get and Value::as_str: probes
/// the frame for a top-level string `service` member, named
/// `json_service_member`.
#[verifier::external_body]
fn frame_service(raw: &[u8]) -> (r: Option<String>)
    ensures
        option_string_view(r) == json_service_member(raw@),
{
    match serde_json::from_slice::<serde_json::Value>(raw) {
        Ok(v) => match v.get("service") {
            Some(m) => m.as_str().map(str::to_string),
            None => None,
        },
        Err(_) => None,
    }
}

/// Relies on serde_json::from_slice, Value::get and Value::is_object:
/// probes the frame for an object `params` member, named
/// `json_params_object`.
#[verifier::external_body]
fn frame_params_is_object(raw: &[u8]) -> (r: bool)
    ensures
        r == json_params_object(raw@),
{
    match serde_json::from_slice::<serde_json::Value>(raw) {
        Ok(v) => match v.get("params") {
            Some(p) => p.is_object(),
            None => false,
        },
        Err(_) => false,
    }
}

/// Relies on serde_json::from_slice, Value::get and Value::as_str: probes
/// the frame for a string `params.vin` member, named `json_vin_member`.
#[verifier::external_body]
fn frame_vin(raw: &[u8]) -> (r: Option<String>)
    ensures
        option_string_view(r) == json_vin_member(raw@),
{
    match serde_json::from_slice::<serde_json::Value>(raw) {
        Ok(v) => match v.get("params").and_then(|p| p.get("vin")) {
            Some(m) => m.as_str().map(str::to_string),
            None => None,
        },
        Err(_) => None,
    }
}

/// Relies on serde_json::from_slice, Value::get and Value::as_f64, with
/// std's Duration::try_from_secs_f64 converting fractional seconds to whole
/// microseconds: probes the frame for a numeric `params.timestamp` member,
/// named `json_timestamp_micros`.
#[verifier::external_body]
fn frame_timestamp_micros(raw: &[u8]) -> (r: Option<u64>)
    ensures
        r == json_timestamp_micros(raw@),
{
    match serde_json::from_slice::<serde_json::Value>(raw) {
        Ok(v) => v.get("params").and_then(|p| p.get("timestamp")).and_then(|t| t.as_f64()).map(
            |secs| match std::time::Duration::try_from_secs_f64(secs) {
                Ok(d) => u64::try_from(d.as_micros()).unwrap_or(u64::MAX),
                Err(_) => 0,
            },
        ),
        Err(_) => None,
    }
}

/// Relies on serde_json::from_slice, Value::get and serde_json::to_string:
/// probes the frame for a `params.data` member and takes its canonical text
/// — object keys sorted (serde_json's default map is ordered), no added
/// whitespace — named `json_data_canonical`. Serializing a JSON value
/// cannot fail, so the error branch is unreachable.
#[verifier::external_body]
fn frame_data_canonical(raw: &[u8]) -> (r: Option<String>)
    ensures
        option_string_view(r) == json_data_canonical(raw@),
{
    match serde_json::from_slice::<serde_json::Value>(raw) {
        Ok(v) => match v.get("params").and_then(|p| p.get("data")) {
            Some(d) => Some(serde_json::to_string(d).unwrap_or_default()),
            None => None,
        },
        Err(_) => None,
    }
}

/// Relies on serde_json::from_slice, Value::get and Value::as_str: probes
/// the frame for a string `params.run_scene` member, named
/// `json_run_scene_member`.
#[verifier::external_body]
fn frame_run_scene(raw: &[u8]) -> (r: Option<String>)
    ensures
        option_string_view(r) == json_run_scene_member(raw@),
{
    match serde_json::from_slice::<serde_json::Value>(raw) {
        Ok(v) => match v.get("params").and_then(|p| p.get("run_scene")) {
            Some(m) => m.as_str().map(str::to_string),
            None => None,
        },
        Err(_) => None,
    }
}

/// Relies on serde_json::from_slice, Value::get and serde_json::to_string:
/// probes the frame for a `params` member and takes its canonical text,
/// named `json_params_canonical`; members the pipeline does not interpret
/// ride along in it unchanged.
#[verifier::external_body]
fn frame_params_canonical(raw: &[u8]) -> (r: Option<String>)
    ensures
        option_string_view(r) == json_params_canonical(raw@),
{
    match serde_json::from_slice::<serde_json::Value>(raw) {
        Ok(v) => match v.get("params") {
            Some(p) => Some(serde_json::to_string(p).unwrap_or_default()),
            None => None,
        },
        Err(_) => None,
    }
}

/// How a decoded record relates to its frame: service and channel are the
/// frame's service member; the vehicle identifier is its vin member or
/// `UNKNOWN`; the timestamp is its timestamp member where the frame has one
/// (and a wall-clock reading otherwise); the data text, run scene and
/// params text are the respective members.
pub open spec fn decoded_matches_frame(m: VehicleMessage, raw: Seq<u8>) -> bool {
    &&& Some(m.service@) == json_service_member(raw)
    &&& m.channel@ == m.service@
    &&& (match json_vin_member(raw) {
        Some(v) => m.vin@ == v,
        None => m.vin@ == "UNKNOWN"@,
    })
    &&& (json_timestamp_micros(raw) matches Some(t) ==> m.timestamp_micros == t)
    &&& m.data_view() == json_data_canonical(raw)
    &&& m.run_scene_view() == json_run_scene_member(raw)
    &&& m.params_view() == json_params_canonical(raw)
}

/// Decodes one byte frame into a message record.
///
/// The frame must be one JSON object; a frame that does not parse fails
/// with `JsonError`, exactly on the frames `json_wf` rejects. A parsed
/// frame fails with `InvalidMessage` exactly when it lacks a string
/// `service` member or an object `params` member; every other parsed frame
/// decodes, to the record `decoded_matches_frame` describes.
pub fn decode_frame(raw: &[u8]) -> (r: Result<VehicleMessage, VehicleError>)
    ensures
        r matches Err(e) ==> (e is JsonError || e is InvalidMessage),
        ((r matches Err(e) && e is JsonError) <==> !json_wf(raw@)),
        ((r matches Err(e) && e is InvalidMessage) <==> (json_wf(raw@) && (json_service_member(
            raw@,
        ) is None || !json_params_object(raw@)))),
        (r is Ok <==> (json_wf(raw@) && json_service_member(raw@) is Some && json_params_object(
            raw@,
        ))),
        r matches Ok(m) ==> decoded_matches_frame(m, raw@),
{
    match parse_json(raw) {
        Ok(()) => {},
        Err(text) => {
            return Err(VehicleError::JsonError(text));
        },
    }
    let service: String = match frame_service(raw) {
        Some(s) => s,
        None => {
            return Err(VehicleError::InvalidMessage("Missing service field".to_owned()));
        },
    };
    if !frame_params_is_object(raw) {
        return Err(VehicleError::InvalidMessage("Missing params field".to_owned()));
    }
    let vin: String = match frame_vin(raw) {
        Some(v) => v,
        None => "UNKNOWN".to_owned(),
    };
    let timestamp_micros: u64 = match frame_timestamp_micros(raw) {
        Some(t) => t,
        None => wall_clock_micros(),
    };
    let data: Option<String> = frame_data_canonical(raw);
    let run_scene: Option<String> = frame_run_scene(raw);
    let params_canonical: Option<String> = frame_params_canonical(raw);
    let channel = service.clone();
    Ok(
        VehicleMessage {
            service,
            vin,
            timestamp_micros,
            data,
            channel,
            run_scene,
            params_canonical,
        },
    )
}

} // verus!
