//! A canonical JSON encoding of the message record: object keys in sorted
//! order, strings escaped, no whitespace. A frame this encoder produces
//! decodes back through the ingest path.
use vstd::prelude::*;
use vstd::utf8::encode_utf8;
use crate::message::VehicleMessage;

verus! {

/// The lower-case hex digit of a value below 16, as a byte.
pub open spec fn hex_digit(d: u8) -> u8 {
    if d < 10 {
        (0x30 + d) as u8
    } else {
        (0x57 + d) as u8
    }
}

/// The JSON escape of one byte of UTF-8 text: quotes and backslashes get a
/// backslash, control bytes become `\u00XX`, everything else stands as is.
pub open spec fn escape_byte(b: u8) -> Seq<u8> {
    if b == 0x22 {
        seq![0x5cu8, 0x22u8]
    } else if b == 0x5c {
        seq![0x5cu8, 0x5cu8]
    } else if b < 0x20 {
        seq![0x5cu8, 0x75u8, 0x30u8, 0x30u8, hex_digit(b >> 4), hex_digit(b & 0xf)]
    } else {
        seq![b]
    }
}

/// The JSON escape of a byte sequence.
pub open spec fn escape_bytes(s: Seq<u8>) -> Seq<u8>
    decreases s.len(),
{
    if s.len() == 0 {
        Seq::empty()
    } else {
        escape_byte(s[0]) + escape_bytes(s.drop_first())
    }
}

/// Escaping distributes over appending one byte.
proof fn lemma_escape_snoc(s: Seq<u8>, b: u8)
    ensures
        escape_bytes(s.push(b)) == escape_bytes(s) + escape_byte(b),
    decreases s.len(),
{
    if s.len() == 0 {
        reveal_with_fuel(escape_bytes, 3);
        assert(s.push(b)[0] == b);
        assert(s.push(b).drop_first() =~= Seq::<u8>::empty());
        assert(escape_bytes(s.push(b)) =~= escape_bytes(s) + escape_byte(b));
    } else {
        assert(s.push(b)[0] == s[0]);
        assert(s.push(b).drop_first() =~= s.drop_first().push(b));
        lemma_escape_snoc(s.drop_first(), b);
        assert(escape_bytes(s.push(b)) =~= escape_bytes(s) + escape_byte(b));
    }
}

/// A byte sequence as a JSON string token: quoted and escaped.
pub open spec fn quoted(s: Seq<u8>) -> Seq<u8> {
    seq![0x22u8] + escape_bytes(s) + seq![0x22u8]
}

/// The decimal digits of a number, most significant first.
pub open spec fn dec_digits(n: u64) -> Seq<u8>
    decreases n,
{
    if n < 10 {
        seq![(0x30 + n) as u8]
    } else {
        dec_digits((n / 10) as u64).push((0x30 + n % 10) as u8)
    }
}

/// Six zero-padded decimal digits of a number below one million.
pub open spec fn frac6_digits(f: u64) -> Seq<u8> {
    seq![
        (0x30 + (f / 100000) % 10) as u8,
        (0x30 + (f / 10000) % 10) as u8,
        (0x30 + (f / 1000) % 10) as u8,
        (0x30 + (f / 100) % 10) as u8,
        (0x30 + (f / 10) % 10) as u8,
        (0x30 + f % 10) as u8,
    ]
}

/// A microsecond timestamp as a decimal count of seconds with six
/// fractional digits.
pub open spec fn timestamp_decimal(t_micros: u64) -> Seq<u8> {
    dec_digits((t_micros / 1000000) as u64) + seq![0x2eu8] + frac6_digits(
        (t_micros % 1000000) as u64,
    )
}

/// The canonical frame of a message: one JSON object with the `params`
/// object (data payload verbatim, then run scene, timestamp and vehicle
/// identifier) and the service tag, keys in sorted order.
pub open spec fn spec_frame_bytes(m: VehicleMessage) -> Seq<u8> {
    encode_utf8("{\"params\":{"@) + (match m.data {
        Some(d) => encode_utf8("\"data\":"@) + encode_utf8(d@) + encode_utf8(","@),
        None => Seq::<u8>::empty(),
    }) + (match m.run_scene {
        Some(rs) => encode_utf8("\"run_scene\":"@) + quoted(encode_utf8(rs@)) + encode_utf8(
            ","@,
        ),
        None => Seq::<u8>::empty(),
    }) + encode_utf8("\"timestamp\":"@) + timestamp_decimal(m.timestamp_micros) + encode_utf8(
        ",\"vin\":"@,
    ) + quoted(encode_utf8(m.vin@)) + encode_utf8("},\"service\":"@) + quoted(
        encode_utf8(m.service@),
    ) + encode_utf8("}"@)
}

/// Appends a string's UTF-8 bytes.
pub(crate) fn push_lit(out: &mut Vec<u8>, s: &str)
    ensures
        final(out)@ == old(out)@ + encode_utf8(s@),
{
    out.extend_from_slice(s.as_bytes());
}

/// Appends a string's UTF-8 bytes, JSON-escaped.
fn push_escaped(out: &mut Vec<u8>, s: &str)
    ensures
        final(out)@ == old(out)@ + escape_bytes(encode_utf8(s@)),
{
    let bytes = s.as_bytes();
    let ghost init = out@;
    let mut i: usize = 0;
    proof {
        assert(bytes@.take(0) =~= Seq::<u8>::empty());
        assert(out@ =~= init + escape_bytes(bytes@.take(0)));
    }
    while i < bytes.len()
        invariant
            i <= bytes@.len(),
            out@ == init + escape_bytes(bytes@.take(i as int)),
        decreases bytes@.len() - i,
    {
        let ghost prefix = bytes@.take(i as int);
        let b = bytes[i];
        if b == 0x22 {
            out.push(0x5c);
            out.push(0x22);
        } else if b == 0x5c {
            out.push(0x5c);
            out.push(0x5c);
        } else if b < 0x20 {
            out.push(0x5c);
            out.push(0x75);
            out.push(0x30);
            out.push(0x30);
            let hi = b >> 4;
            let lo = b & 0xf;
            proof {
                assert((b >> 4) < 16 && (b & 0xf) < 16) by (bit_vector);
            }
            out.push(
                if hi < 10 {
                    0x30 + hi
                } else {
                    0x57 + hi
                },
            );
            out.push(
                if lo < 10 {
                    0x30 + lo
                } else {
                    0x57 + lo
                },
            );
        } else {
            out.push(b);
        }
        proof {
            lemma_escape_snoc(prefix, b);
            assert(bytes@.take(i as int + 1) =~= prefix.push(b));
            assert(out@ =~= init + escape_bytes(bytes@.take(i as int + 1)));
        }
        i = i + 1;
    }
    proof {
        assert(bytes@.take(bytes@.len() as int) =~= bytes@);
    }
}

/// Appends a string as a JSON string token.
fn push_quoted(out: &mut Vec<u8>, s: &str)
    ensures
        final(out)@ == old(out)@ + quoted(encode_utf8(s@)),
{
    out.push(0x22);
    push_escaped(out, s);
    out.push(0x22);
    proof {
        assert(out@ =~= old(out)@ + quoted(encode_utf8(s@)));
    }
}

/// Appends a number's decimal digits.
pub(crate) fn push_dec(out: &mut Vec<u8>, n: u64)
    ensures
        final(out)@ == old(out)@ + dec_digits(n),
    decreases n,
{
    if n < 10 {
        out.push(0x30 + n as u8);
        proof {
            assert(out@ =~= old(out)@ + dec_digits(n));
        }
    } else {
        push_dec(out, n / 10);
        out.push(0x30 + (n % 10) as u8);
        proof {
            assert(out@ =~= old(out)@ + dec_digits(n));
        }
    }
}

/// Appends six zero-padded decimal digits.
fn push_frac6(out: &mut Vec<u8>, f: u64)
    requires
        f < 1000000,
    ensures
        final(out)@ == old(out)@ + frac6_digits(f),
{
    out.push(0x30 + ((f / 100000) % 10) as u8);
    out.push(0x30 + ((f / 10000) % 10) as u8);
    out.push(0x30 + ((f / 1000) % 10) as u8);
    out.push(0x30 + ((f / 100) % 10) as u8);
    out.push(0x30 + ((f / 10) % 10) as u8);
    out.push(0x30 + (f % 10) as u8);
    proof {
        assert(out@ =~= old(out)@ + frac6_digits(f));
    }
}

/// Appends a microsecond timestamp as decimal seconds.
fn push_timestamp(out: &mut Vec<u8>, t_micros: u64)
    ensures
        final(out)@ == old(out)@ + timestamp_decimal(t_micros),
{
    push_dec(out, t_micros / 1000000);
    out.push(0x2e);
    push_frac6(out, t_micros % 1000000);
    proof {
        assert(out@ =~= old(out)@ + timestamp_decimal(t_micros));
    }
}

/// Encodes a message as its canonical JSON frame. The data payload, when
/// present, must itself be JSON text (as decoding produces) and is written
/// verbatim.
pub fn to_json_bytes(m: &VehicleMessage) -> (r: Vec<u8>)
    ensures
        r@ == spec_frame_bytes(*m),
{
    let mut out: Vec<u8> = Vec::new();
    push_lit(&mut out, "{\"params\":{");
    match &m.data {
        Some(d) => {
            push_lit(&mut out, "\"data\":");
            push_lit(&mut out, d.as_str());
            push_lit(&mut out, ",");
        },
        None => {},
    }
    match &m.run_scene {
        Some(rs) => {
            push_lit(&mut out, "\"run_scene\":");
            push_quoted(&mut out, rs.as_str());
            push_lit(&mut out, ",");
        },
        None => {},
    }
    push_lit(&mut out, "\"timestamp\":");
    push_timestamp(&mut out, m.timestamp_micros);
    push_lit(&mut out, ",\"vin\":");
    push_quoted(&mut out, m.vin.as_str());
    push_lit(&mut out, "},\"service\":");
    push_quoted(&mut out, m.service.as_str());
    push_lit(&mut out, "}");
    proof {
        assert(out@ =~= spec_frame_bytes(*m));
    }
    out
}

} // verus!
