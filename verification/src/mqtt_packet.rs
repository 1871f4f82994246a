//! The small subset of MQTT 3.1.1 packets that the browser client speaks over
//! a WebSocket: CONNECT, SUBSCRIBE and PUBLISH are built here, CONNACK, SUBACK
//! and PUBLISH are parsed here.
use vstd::prelude::*;
use vstd::utf8::{decode_utf8, encode_utf8, valid_utf8};

verus! {

/// Largest remaining length that fits the four bytes MQTT allows for it.
pub const MAX_REMAINING_LENGTH: usize = 268435455;

/// The MQTT variable-length encoding of `n`: seven bits per byte, least
/// significant group first, with the high bit set on every byte but the last.
pub open spec fn spec_encode_length(n: nat) -> Seq<u8>
    decreases n,
{
    if n < 128 {
        seq![n as u8]
    } else {
        seq![(n % 128 + 128) as u8] + spec_encode_length(n / 128)
    }
}

/// Decodes a variable-length field that starts at `pos`, reading at most
/// `budget` bytes. The result is the value and the number of bytes read.
pub open spec fn spec_decode_length_from(data: Seq<u8>, pos: int, budget: nat) -> Option<(nat, nat)>
    decreases budget,
{
    if budget == 0 || pos < 0 || pos >= data.len() {
        None
    } else if data[pos] < 128 {
        Some((data[pos] as nat, 1nat))
    } else {
        match spec_decode_length_from(data, pos + 1, (budget - 1) as nat) {
            Some((v, k)) => Some((((data[pos] - 128) + 128 * v) as nat, k + 1)),
            None => None,
        }
    }
}

/// The remaining-length field at `start`, as MQTT reads it: at most four bytes.
pub open spec fn spec_decode_remaining_length(data: Seq<u8>, start: int) -> Option<(nat, nat)> {
    spec_decode_length_from(data, start, 4)
}

/// A two-byte big-endian length followed by the bytes, the way MQTT frames
/// strings. Lengths of 65536 and more wrap, as the framing has only 16 bits.
pub open spec fn spec_length_prefixed(bytes: Seq<u8>) -> Seq<u8> {
    seq![((bytes.len() / 256) % 256) as u8, (bytes.len() % 256) as u8] + bytes
}

/// A complete packet: the first header byte, the encoded remaining length,
/// then the rest.
pub open spec fn spec_framed(first: u8, rest: Seq<u8>) -> Seq<u8> {
    seq![first] + spec_encode_length(rest.len()) + rest
}

/// CONNECT with protocol "MQTT" level 4, clean session, keep-alive 60 s.
pub open spec fn spec_connect_packet(client_id: Seq<u8>) -> Seq<u8> {
    spec_framed(
        0x10,
        seq![0x00u8, 0x04, 0x4d, 0x51, 0x54, 0x54, 0x04, 0x02, 0x00, 0x3c]
            + spec_length_prefixed(client_id),
    )
}

/// SUBSCRIBE to one topic filter at QoS 0.
pub open spec fn spec_subscribe_packet(topic: Seq<u8>, packet_id: u16) -> Seq<u8> {
    spec_framed(
        0x82,
        seq![(packet_id / 256) as u8, (packet_id % 256) as u8] + spec_length_prefixed(topic)
            + seq![0x00u8],
    )
}

/// PUBLISH at QoS 0 without the retain flag.
pub open spec fn spec_publish_packet(topic: Seq<u8>, payload: Seq<u8>) -> Seq<u8> {
    spec_framed(0x30, spec_length_prefixed(topic) + payload)
}

/// The packet type: the high nibble of the first byte.
pub open spec fn packet_type(data: Seq<u8>) -> int {
    (data[0] / 16) as int
}

/// Where the variable header starts and how long the rest of the packet is,
/// when the first byte has packet type `kind` and the packet is complete.
pub open spec fn spec_complete_header(data: Seq<u8>, kind: int) -> Option<(nat, nat)> {
    if data.len() < 2 || packet_type(data) != kind {
        None
    } else {
        match spec_decode_remaining_length(data, 1) {
            Some((remaining, length_bytes)) => {
                if data.len() < 1 + length_bytes + remaining {
                    None
                } else {
                    Some(((1 + length_bytes) as nat, remaining))
                }
            },
            None => None,
        }
    }
}

/// A complete SUBACK whose remaining length is under two: the packet id does
/// not fit, and the parser does not accept such input.
pub open spec fn suback_too_short(data: Seq<u8>) -> bool {
    match spec_complete_header(data, 9) {
        Some((_, remaining)) => remaining < 2,
        None => false,
    }
}

/// SUBACK: the packet identifier and the return codes.
pub open spec fn spec_parse_suback(data: Seq<u8>) -> Option<(u16, Seq<u8>)> {
    match spec_complete_header(data, 9) {
        Some((header_end, remaining)) => {
            let he = header_end as int;
            Some(((data[he] * 256 + data[he + 1]) as u16, data.subrange(he + 2, he + remaining)))
        },
        None => None,
    }
}

/// CONNACK: the connect return code, the second byte of the variable header.
pub open spec fn spec_parse_connack(data: Seq<u8>) -> Option<u8> {
    match spec_complete_header(data, 2) {
        Some((header_end, remaining)) => if remaining < 2 {
            None
        } else {
            Some(data[header_end as int + 1])
        },
        None => None,
    }
}

/// PUBLISH: the topic name's bytes and the payload.
pub open spec fn spec_parse_publish(data: Seq<u8>) -> Option<(Seq<u8>, Seq<u8>)> {
    match spec_complete_header(data, 3) {
        Some((header_end, remaining)) => {
            let he = header_end as int;
            if he + 2 > data.len() {
                None
            } else {
                let topic_len = data[he] * 256 + data[he + 1];
                let topic_start = he + 2;
                if topic_start + topic_len > data.len() {
                    None
                } else if topic_start + topic_len > he + remaining {
                    None
                } else {
                    Some((
                        data.subrange(topic_start, topic_start + topic_len),
                        data.subrange(topic_start + topic_len, he + remaining),
                    ))
                }
            }
        },
        None => None,
    }
}

/// What `String::from_utf8_lossy` makes of a byte string.
pub uninterp spec fn utf8_lossy(bytes: Seq<u8>) -> Seq<char>;

/// Calls `String::from_utf8_lossy` and takes the owned string. Claimed: the
/// result depends on the bytes alone and, on valid UTF-8, is exactly the
/// decoded text (std documents that only invalid sequences are replaced by
/// U+FFFD). What it gives for invalid input is left unsaid.
#[verifier::external_body]
fn string_from_utf8_lossy(bytes: &[u8]) -> (text: String)
    ensures
        text@ == utf8_lossy(bytes@),
        valid_utf8(bytes@) ==> text@ == decode_utf8(bytes@),
{
    String::from_utf8_lossy(bytes).into_owned()
}

/// Encode a remaining length with the MQTT variable-length scheme.
pub fn encode_remaining_length(length: usize) -> (encoded: Vec<u8>)
    ensures
        encoded@ == spec_encode_length(length as nat),
{
    let mut encoded: Vec<u8> = Vec::new();
    let mut x: usize = length;
    loop
        invariant_except_break
            encoded@ + spec_encode_length(x as nat) == spec_encode_length(length as nat),
        ensures
            encoded@ == spec_encode_length(length as nat),
        decreases x,
    {
        let low: u8 = (x % 128) as u8;
        let mut encoded_byte: u8 = low;
        let rest: usize = x / 128;
        if rest > 0 {
            assert(low | 0x80u8 == low + 128) by (bit_vector)
                requires
                    low < 128,
            ;
            encoded_byte = low | 0x80;
        }
        proof {
            if x < 128 {
                assert(spec_encode_length(x as nat) == seq![x as u8]);
            } else {
                assert(spec_encode_length(x as nat) == seq![(x % 128 + 128) as u8]
                    + spec_encode_length(rest as nat));
            }
        }
        encoded.push(encoded_byte);
        x = rest;
        if x == 0 {
            assert(encoded@ == spec_encode_length(length as nat));
            break;
        }
        assert(encoded@ + spec_encode_length(x as nat) == spec_encode_length(length as nat));
    }
    encoded
}

spec fn shifted(r: Option<(nat, nat)>, value: nat, multiplier: nat, count: nat) -> Option<(nat, nat)> {
    match r {
        Some((v, k)) => Some((value + multiplier * v, k + count)),
        None => None,
    }
}

/// Decode the variable-length remaining length that starts at `start_offset`.
/// Gives the value and the number of bytes it took, or `None` when the data
/// ends first or the field runs past four bytes.
pub fn decode_remaining_length(data: &[u8], start_offset: usize) -> (res: Option<(usize, usize)>)
    ensures
        match spec_decode_remaining_length(data@, start_offset as int) {
            Some((v, k)) => {
                &&& v <= MAX_REMAINING_LENGTH
                &&& 1 <= k <= 4
                &&& res == Some((v as usize, k as usize))
            },
            None => res is None,
        },
{
    let mut value: usize = 0;
    let mut multiplier: usize = 1;
    let mut offset: usize = start_offset;
    let mut count: usize = 0;
    loop
        invariant_except_break
            offset == start_offset + count,
            count <= 4,
            (count == 0 && multiplier == 1) || (count == 1 && multiplier == 128) || (count == 2
                && multiplier == 16384) || (count == 3 && multiplier == 2097152) || (count == 4
                && multiplier == 268435456),
            value < multiplier,
            spec_decode_remaining_length(data@, start_offset as int) == shifted(
                spec_decode_length_from(data@, offset as int, (4 - count) as nat),
                value as nat,
                multiplier as nat,
                count as nat,
            ),
        ensures
            spec_decode_remaining_length(data@, start_offset as int) == Some(
                (value as nat, count as nat),
            ),
            offset == start_offset + count,
            value <= MAX_REMAINING_LENGTH,
            1 <= count <= 4,
        decreases 4 - count,
    {
        if offset >= data.len() {
            return None;
        }
        if count >= 4 {
            return None;
        }
        let encoded_byte: u8 = data[offset];
        let low: usize = (encoded_byte % 128) as usize;
        let ghost rest = spec_decode_length_from(data@, offset + 1, (4 - count - 1) as nat);
        assert(value + low * multiplier < multiplier * 128) by (nonlinear_arith)
            requires
                value < multiplier,
                low < 128,
        ;
        let new_value: usize = value + low * multiplier;
        offset = offset + 1;
        count = count + 1;
        if encoded_byte < 128 {
            assert(value + multiplier * encoded_byte == new_value) by (nonlinear_arith)
                requires
                    new_value == value + low * multiplier,
                    low == encoded_byte,
            ;
            value = new_value;
            break;
        }
        proof {
            match rest {
                Some((v, k)) => {
                    assert(value + multiplier * ((encoded_byte - 128) + 128 * v) == new_value
                        + (multiplier * 128) * v) by (nonlinear_arith)
                        requires
                            new_value == value + low * multiplier,
                            low == encoded_byte - 128,
                    ;
                },
                None => {},
            }
        }
        value = new_value;
        multiplier = multiplier * 128;
    }
    Some((value, count))
}

} // verus!

verus! {

/// Appends `bytes` to `out`.
fn append_bytes(out: &mut Vec<u8>, bytes: &[u8])
    ensures
        final(out)@ == old(out)@ + bytes@,
{
    let ghost start = out@;
    let mut i: usize = 0;
    while i < bytes.len()
        invariant
            i <= bytes@.len(),
            out@ == start + bytes@.subrange(0, i as int),
        decreases bytes@.len() - i,
    {
        out.push(bytes[i]);
        i = i + 1;
        assert(out@ == start + bytes@.subrange(0, i as int));
    }
    assert(bytes@.subrange(0, bytes@.len() as int) == bytes@);
}

/// Appends the two-byte big-endian length of `bytes`, then `bytes`.
fn append_length_prefixed(out: &mut Vec<u8>, bytes: &[u8])
    ensures
        final(out)@ == old(out)@ + spec_length_prefixed(bytes@),
{
    let len: usize = bytes.len();
    assert(((len >> 8usize) as u8) == ((len / 256) % 256) as u8) by (bit_vector);
    assert(((len & 0xFFusize) as u8) == (len % 256) as u8) by (bit_vector);
    out.push((len >> 8) as u8);
    out.push((len & 0xFF) as u8);
    append_bytes(out, bytes);
}

/// The first byte, the remaining length of `rest`, then `rest`.
fn frame(first: u8, rest: &Vec<u8>) -> (packet: Vec<u8>)
    ensures
        packet@ == spec_framed(first, rest@),
{
    let mut packet: Vec<u8> = Vec::new();
    packet.push(first);
    let remaining_length_bytes = encode_remaining_length(rest.len());
    append_bytes(&mut packet, remaining_length_bytes.as_slice());
    append_bytes(&mut packet, rest.as_slice());
    packet
}

/// Create an MQTT CONNECT packet for `client_id`.
pub fn connect_packet(client_id: &str) -> (packet: Vec<u8>)
    ensures
        packet@ == spec_connect_packet(encode_utf8(client_id@)),
{
    let mut variable_header: Vec<u8> = Vec::new();
    variable_header.push(0x00);
    variable_header.push(0x04);
    variable_header.push(0x4d);
    variable_header.push(0x51);
    variable_header.push(0x54);
    variable_header.push(0x54);
    variable_header.push(0x04);
    variable_header.push(0x02);
    variable_header.push(0x00);
    variable_header.push(0x3c);
    append_length_prefixed(&mut variable_header, client_id.as_bytes());
    assert(variable_header@ == seq![0x00u8, 0x04, 0x4d, 0x51, 0x54, 0x54, 0x04, 0x02, 0x00, 0x3c]
        + spec_length_prefixed(encode_utf8(client_id@)));
    frame(0x10, &variable_header)
}

/// Create an MQTT SUBSCRIBE packet for one topic filter at QoS 0.
pub fn subscribe_packet(topic: &str, packet_id: u16) -> (packet: Vec<u8>)
    ensures
        packet@ == spec_subscribe_packet(encode_utf8(topic@), packet_id),
{
    let mut variable_header: Vec<u8> = Vec::new();
    assert(((packet_id >> 8u16) as u8) == (packet_id / 256) as u8) by (bit_vector);
    assert(((packet_id & 0xFFu16) as u8) == (packet_id % 256) as u8) by (bit_vector);
    variable_header.push((packet_id >> 8) as u8);
    variable_header.push((packet_id & 0xFF) as u8);
    append_length_prefixed(&mut variable_header, topic.as_bytes());
    variable_header.push(0x00);
    frame(0x82, &variable_header)
}

/// Create an MQTT PUBLISH packet at QoS 0.
pub fn publish_packet(topic: &str, payload: &[u8]) -> (packet: Vec<u8>)
    ensures
        packet@ == spec_publish_packet(encode_utf8(topic@), payload@),
{
    let mut variable_header: Vec<u8> = Vec::new();
    append_length_prefixed(&mut variable_header, topic.as_bytes());
    append_bytes(&mut variable_header, payload);
    assert(variable_header@ == spec_length_prefixed(encode_utf8(topic@)) + payload@);
    frame(0x30, &variable_header)
}

/// Whether the first byte carries packet type `kind`.
fn has_packet_type(first: u8, kind: u8) -> (b: bool)
    requires
        kind < 16,
    ensures
        b == (first / 16 == kind),
{
    let shifted_kind: u8 = kind * 16;
    assert((first & 0xF0u8) == (first / 16) * 16) by (bit_vector);
    (first & 0xF0) == shifted_kind
}

/// Checks the fixed header of a packet of type `kind`; gives where its
/// variable header starts and its remaining length, when it is complete.
fn complete_header(data: &[u8], kind: u8) -> (res: Option<(usize, usize)>)
    requires
        kind < 16,
    ensures
        match spec_complete_header(data@, kind as int) {
            Some((h, r)) => {
                &&& 2 <= h <= 5
                &&& h + r <= data@.len()
                &&& r <= MAX_REMAINING_LENGTH
                &&& res == Some((h as usize, r as usize))
            },
            None => res is None,
        },
{
    if data.len() < 2 || !has_packet_type(data[0], kind) {
        return None;
    }
    match decode_remaining_length(data, 1) {
        Some((remaining_length, length_bytes)) => {
            let header_end: usize = 1 + length_bytes;
            if data.len() < header_end + remaining_length {
                None
            } else {
                Some((header_end, remaining_length))
            }
        },
        None => None,
    }
}

/// Whether `data` is a complete SUBACK too short to hold its packet id (see
/// [`parse_suback_packet`]).
pub fn is_truncated_suback(data: &[u8]) -> (b: bool)
    ensures
        b == suback_too_short(data@),
{
    match complete_header(data, 9) {
        Some((_, remaining_length)) => remaining_length < 2,
        None => false,
    }
}

/// Parse an MQTT SUBACK packet: its packet identifier and return codes.
pub fn parse_suback_packet(data: &[u8]) -> (res: Option<(u16, Vec<u8>)>)
    requires
        !suback_too_short(data@),
    ensures
        match res {
            Some((packet_id, return_codes)) => spec_parse_suback(data@) == Some(
                (packet_id, return_codes@),
            ),
            None => spec_parse_suback(data@) is None,
        },
{
    match complete_header(data, 9) {
        Some((header_end, remaining_length)) => {
            let hi: u8 = data[header_end];
            let lo: u8 = data[header_end + 1];
            assert((((hi as u16) << 8u16) | (lo as u16)) == (hi * 256 + lo) as u16) by (bit_vector);
            let packet_id: u16 = ((hi as u16) << 8) | (lo as u16);
            let return_codes = vstd::slice::slice_to_vec(
                vstd::slice::slice_subrange(data, header_end + 2, header_end + remaining_length),
            );
            Some((packet_id, return_codes))
        },
        None => None,
    }
}

/// Parse an MQTT CONNACK packet: its connect return code.
pub fn parse_connack_packet(data: &[u8]) -> (res: Option<u8>)
    ensures
        res == spec_parse_connack(data@),
{
    match complete_header(data, 2) {
        Some((header_end, remaining_length)) => {
            if remaining_length < 2 {
                None
            } else {
                Some(data[header_end + 1])
            }
        },
        None => None,
    }
}

/// Parse an MQTT PUBLISH packet: its topic, decoded leniently as UTF-8, and
/// its payload.
pub fn parse_publish_packet(data: &[u8]) -> (res: Option<(String, Vec<u8>)>)
    ensures
        match res {
            Some((topic, payload)) => match spec_parse_publish(data@) {
                Some((topic_bytes, body)) => {
                    &&& topic@ == utf8_lossy(topic_bytes)
                    &&& valid_utf8(topic_bytes) ==> topic@ == decode_utf8(
                        topic_bytes,
                    )
                    &&& payload@ == body
                },
                None => false,
            },
            None => spec_parse_publish(data@) is None,
        },
{
    match complete_header(data, 3) {
        Some((header_end, remaining_length)) => {
            let mut offset: usize = header_end;
            if offset + 2 > data.len() {
                return None;
            }
            let hi: u8 = data[offset];
            let lo: u8 = data[offset + 1];
            assert((((hi as usize) << 8usize) | (lo as usize)) == hi * 256 + lo) by (bit_vector);
            let topic_length: usize = ((hi as usize) << 8) | (lo as usize);
            offset = offset + 2;
            if offset + topic_length > data.len() {
                return None;
            }
            let topic = string_from_utf8_lossy(
                vstd::slice::slice_subrange(data, offset, offset + topic_length),
            );
            offset = offset + topic_length;
            let payload_end: usize = header_end + remaining_length;
            if offset > payload_end {
                return None;
            }
            let payload = vstd::slice::slice_to_vec(
                vstd::slice::slice_subrange(data, offset, payload_end),
            );
            Some((topic, payload))
        },
        None => None,
    }
}

} // verus!

verus! {

/// 128 to the power `e`: the first value that needs more than `e` bytes.
pub open spec fn pow128(e: nat) -> nat
    decreases e,
{
    if e == 0 {
        1
    } else {
        128 * pow128((e - 1) as nat)
    }
}

proof fn lemma_decode_encoded_from(data: Seq<u8>, pos: int, budget: nat, n: nat)
    requires
        budget >= 1,
        n < pow128(budget),
        0 <= pos,
        pos + spec_encode_length(n).len() <= data.len(),
        data.subrange(pos, pos + spec_encode_length(n).len()) == spec_encode_length(n),
    ensures
        spec_decode_length_from(data, pos, budget) == Some((n, spec_encode_length(n).len())),
        1 <= spec_encode_length(n).len() <= budget,
    decreases n,
{
    let enc = spec_encode_length(n);
    assert(data[pos] == data.subrange(pos, pos + enc.len())[0]);
    if n < 128 {
        assert(enc == seq![n as u8]);
    } else {
        let rest = spec_encode_length(n / 128);
        assert(enc == seq![(n % 128 + 128) as u8] + rest);
        assert(budget >= 2) by {
            if budget == 1 {
                assert(pow128(1) == 128 * pow128(0));
            }
        }
        assert(pow128(budget) == 128 * pow128((budget - 1) as nat));
        assert(n / 128 < pow128((budget - 1) as nat));
        assert(data.subrange(pos + 1, pos + 1 + rest.len()) == rest) by {
            assert forall|i: int| 0 <= i < rest.len() implies data.subrange(
                pos + 1,
                pos + 1 + rest.len(),
            )[i] == rest[i] by {
                assert(data.subrange(pos, pos + enc.len())[i + 1] == enc[i + 1]);
            }
        }
        lemma_decode_encoded_from(data, pos + 1, (budget - 1) as nat, n / 128);
    }
}

proof fn lemma_decode_too_long_from(data: Seq<u8>, pos: int, budget: nat, n: nat)
    requires
        n >= pow128(budget),
        0 <= pos,
        pos + spec_encode_length(n).len() <= data.len(),
        data.subrange(pos, pos + spec_encode_length(n).len()) == spec_encode_length(n),
    ensures
        spec_decode_length_from(data, pos, budget) is None,
    decreases budget,
{
    if budget > 0 {
        let enc = spec_encode_length(n);
        assert(pow128(budget) == 128 * pow128((budget - 1) as nat));
        assert(pow128((budget - 1) as nat) >= 1) by {
            lemma_pow128_positive((budget - 1) as nat);
        }
        let rest = spec_encode_length(n / 128);
        assert(enc == seq![(n % 128 + 128) as u8] + rest);
        assert(data[pos] == data.subrange(pos, pos + enc.len())[0]);
        assert(data.subrange(pos + 1, pos + 1 + rest.len()) == rest) by {
            assert forall|i: int| 0 <= i < rest.len() implies data.subrange(
                pos + 1,
                pos + 1 + rest.len(),
            )[i] == rest[i] by {
                assert(data.subrange(pos, pos + enc.len())[i + 1] == enc[i + 1]);
            }
        }
        lemma_decode_too_long_from(data, pos + 1, (budget - 1) as nat, n / 128);
    }
}

proof fn lemma_pow128_positive(e: nat)
    ensures
        pow128(e) >= 1,
    decreases e,
{
    if e > 0 {
        lemma_pow128_positive((e - 1) as nat);
    }
}

/// Reading back an encoded remaining length gives the length and the number
/// of bytes it took, wherever the field stands and whatever follows it, for
/// every length up to the limit; the field is one to four bytes long.
pub proof fn law_remaining_length_roundtrip(prefix: Seq<u8>, n: nat, suffix: Seq<u8>)
    requires
        n <= MAX_REMAINING_LENGTH,
    ensures
        spec_decode_remaining_length(prefix + spec_encode_length(n) + suffix, prefix.len() as int)
            == Some((n, spec_encode_length(n).len())),
        1 <= spec_encode_length(n).len() <= 4,
{
    let data = prefix + spec_encode_length(n) + suffix;
    reveal_with_fuel(pow128, 5);
    assert(data.subrange(prefix.len() as int, prefix.len() + spec_encode_length(n).len() as int)
        == spec_encode_length(n));
    lemma_decode_encoded_from(data, prefix.len() as int, 4, n);
}

/// A length above the limit encodes to more bytes than MQTT allows, and the
/// decoder refuses it.
pub proof fn law_remaining_length_too_long(prefix: Seq<u8>, n: nat, suffix: Seq<u8>)
    requires
        n > MAX_REMAINING_LENGTH,
    ensures
        spec_decode_remaining_length(prefix + spec_encode_length(n) + suffix, prefix.len() as int)
            is None,
{
    let data = prefix + spec_encode_length(n) + suffix;
    reveal_with_fuel(pow128, 5);
    assert(data.subrange(prefix.len() as int, prefix.len() + spec_encode_length(n).len() as int)
        == spec_encode_length(n));
    lemma_decode_too_long_from(data, prefix.len() as int, 4, n);
}

/// A framed packet has its first byte, then a remaining length that reads back
/// as the length of the rest, which is all there.
proof fn lemma_framed_header(first: u8, rest: Seq<u8>)
    requires
        rest.len() <= MAX_REMAINING_LENGTH,
    ensures
        ({
            let packet = spec_framed(first, rest);
            let k = spec_encode_length(rest.len()).len() as int;
            &&& spec_decode_remaining_length(packet, 1) == Some((rest.len(), k as nat))
            &&& 1 <= k <= 4
            &&& packet.len() == 1 + k + rest.len()
            &&& packet[0] == first
            &&& packet.subrange(1 + k, packet.len() as int) == rest
        }),
{
    let packet = spec_framed(first, rest);
    law_remaining_length_roundtrip(seq![first], rest.len(), rest);
    assert(packet == seq![first] + spec_encode_length(rest.len()) + rest);
    let k = spec_encode_length(rest.len()).len() as int;
    assert(packet.subrange(1 + k, packet.len() as int) == rest);
}

/// Every packet this module builds is complete, and its fixed header gives the
/// packet type and the exact length of the rest.
pub proof fn law_built_packets_are_complete(topic: Seq<u8>, payload: Seq<u8>, packet_id: u16)
    requires
        12 + topic.len() <= MAX_REMAINING_LENGTH,
        2 + topic.len() + payload.len() <= MAX_REMAINING_LENGTH,
    ensures
        spec_complete_header(spec_connect_packet(topic), 1) == Some(
            ((1 + spec_encode_length(12 + topic.len()).len()) as nat, (12 + topic.len()) as nat),
        ),
        spec_complete_header(spec_subscribe_packet(topic, packet_id), 8) == Some(
            ((1 + spec_encode_length(5 + topic.len()).len()) as nat, (5 + topic.len()) as nat),
        ),
        spec_complete_header(spec_publish_packet(topic, payload), 3) == Some(
            (
                (1 + spec_encode_length(2 + topic.len() + payload.len()).len()) as nat,
                (2 + topic.len() + payload.len()) as nat,
            ),
        ),
{
    let c = seq![0x00u8, 0x04, 0x4d, 0x51, 0x54, 0x54, 0x04, 0x02, 0x00, 0x3c]
        + spec_length_prefixed(topic);
    lemma_framed_header(0x10, c);
    let s = seq![(packet_id / 256) as u8, (packet_id % 256) as u8] + spec_length_prefixed(topic)
        + seq![0x00u8];
    lemma_framed_header(0x82, s);
    let p = spec_length_prefixed(topic) + payload;
    lemma_framed_header(0x30, p);
}

/// A PUBLISH packet built from a topic and a payload parses back to the same
/// topic bytes and the same payload, whatever bytes follow the packet: the
/// payload ends where the remaining length says.
pub proof fn law_publish_roundtrip(topic: Seq<u8>, payload: Seq<u8>, tail: Seq<u8>)
    requires
        topic.len() < 65536,
        2 + topic.len() + payload.len() <= MAX_REMAINING_LENGTH,
    ensures
        spec_parse_publish(spec_publish_packet(topic, payload) + tail) == Some((topic, payload)),
{
    let rest = spec_length_prefixed(topic) + payload;
    let data = spec_publish_packet(topic, payload) + tail;
    let enc = spec_encode_length(rest.len());
    law_remaining_length_roundtrip(seq![0x30u8], rest.len(), rest + tail);
    assert(data =~= seq![0x30u8] + enc + (rest + tail));
    let k = enc.len() as int;
    let he: int = 1 + k;
    assert(data[0] == 0x30u8);
    assert(data.len() == 1 + k + rest.len() + tail.len());
    assert(forall|i: int| 0 <= i < rest.len() ==> #[trigger] data[he + i] == rest[i]) by {
        assert forall|i: int| 0 <= i < rest.len() implies #[trigger] data[he + i] == rest[i] by {
            assert(data[he + i] == (rest + tail)[i]);
        }
    }
    assert(data[he + 0] == rest[0]);
    assert(data[he + 1] == rest[1]);
    assert(rest[0] * 256 + rest[1] == topic.len());
    assert(data.subrange(he + 2, he + 2 + topic.len() as int) =~= topic) by {
        assert forall|i: int| 0 <= i < topic.len() implies data.subrange(
            he + 2,
            he + 2 + topic.len() as int,
        )[i] == topic[i] by {
            assert(data[he + (2 + i)] == rest[2 + i]);
        }
    }
    assert(data.subrange(he + 2 + topic.len() as int, he + rest.len() as int) =~= payload) by {
        assert forall|i: int| 0 <= i < payload.len() implies data.subrange(
            he + 2 + topic.len() as int,
            he + rest.len() as int,
        )[i] == payload[i] by {
            assert(data[he + (2 + topic.len() + i)] == rest[2 + topic.len() + i]);
        }
    }
}

/// The same for a topic given as text: what comes back is the topic's UTF-8
/// encoding, which is valid and decodes to the topic, so the parser hands the
/// topic back unchanged.
pub proof fn law_publish_topic_text_roundtrip(topic: Seq<char>, payload: Seq<u8>, tail: Seq<u8>)
    requires
        encode_utf8(topic).len() < 65536,
        2 + encode_utf8(topic).len() + payload.len() <= MAX_REMAINING_LENGTH,
    ensures
        spec_parse_publish(spec_publish_packet(encode_utf8(topic), payload) + tail) == Some(
            (encode_utf8(topic), payload),
        ),
        valid_utf8(encode_utf8(topic)),
        decode_utf8(encode_utf8(topic)) == topic,
{
    law_publish_roundtrip(encode_utf8(topic), payload, tail);
    vstd::utf8::encode_utf8_valid_utf8(topic);
    vstd::utf8::encode_utf8_decode_utf8(topic);
}

} // verus!
