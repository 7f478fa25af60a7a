//! The wire frame: start marker, address, type, length, payload, checksum.
//!
//! ```text
//! [2B start = 0xEF01][4B address][1B type][2B length][length-2 B payload][2B checksum]
//! ```
//!
//! All multi-byte fields are big-endian. The length counts the payload and the
//! checksum; the checksum is the sum of the type, the length and the payload
//! bytes, modulo 65536.

use crate::wire::{be16, field_at, high_byte, low_byte, split_u16};
use vstd::prelude::*;
use vstd::slice::{slice_subrange, slice_to_vec};

verus! {

/// The two bytes every frame starts with.
pub const STARTCODE: u16 = 0xEF01;

/// Frame type of a command, sent to the sensor.
pub const COMMANDPACKET: u8 = 0x01;

/// Frame type of an acknowledgement, sent by the sensor.
pub const ACKPACKET: u8 = 0x07;

/// Bytes in front of the payload: start marker, address, type and length.
pub const HEADER_LEN: usize = 9;

/// The longest payload whose length field still fits in 16 bits.
pub const MAX_PAYLOAD: usize = 65533;

/// Why a received byte sequence is not an acceptable acknowledgement frame.
#[derive(Clone, Copy, Debug, PartialEq, Eq)]
pub enum ProtocolError {
    /// The first two bytes are not the start marker.
    InvalidStartCode,
    /// The address field is not the address of the session's sensor.
    AddressMismatch,
    /// The type field is not that of an acknowledgement.
    UnexpectedPacketType,
    /// The bytes end before the header, or before the declared length, is complete.
    TruncatedFrame,
    /// The stored checksum is not the sum of the bytes it covers (strict mode only).
    ChecksumMismatch,
}

/// Sum of the bytes of `bytes`.
pub open spec fn byte_sum(bytes: Seq<u8>) -> int
    decreases bytes.len(),
{
    if bytes.len() == 0 {
        0
    } else {
        byte_sum(bytes.drop_last()) + bytes.last() as int
    }
}

/// The checksum over `body`: the sum of its bytes, truncated to 16 bits.
pub open spec fn checksum_spec(body: Seq<u8>) -> int {
    byte_sum(body) % 0x10000
}

/// The part of a frame that the checksum covers: type, length, payload.
pub open spec fn frame_body(kind: u8, payload: Seq<u8>) -> Seq<u8> {
    let length = payload.len() as int + 2;
    seq![kind, high_byte(length), low_byte(length)] + payload
}

/// The frame of type `kind` that carries `payload` to or from `address`.
pub open spec fn frame(address: Seq<u8>, kind: u8, payload: Seq<u8>) -> Seq<u8> {
    let body = frame_body(kind, payload);
    let sum = checksum_spec(body);
    seq![0xEFu8, 0x01u8] + address + body + seq![high_byte(sum), low_byte(sum)]
}

/// Whether `bytes` begins with the start marker.
pub open spec fn has_start_code(bytes: Seq<u8>) -> bool {
    bytes.len() >= 2 && bytes[0] == 0xEF && bytes[1] == 0x01
}

/// The length field of a frame with a complete header.
pub open spec fn declared_len(bytes: Seq<u8>) -> int {
    be16(bytes[7], bytes[8])
}

/// The payload of a frame that is as long as its length field says.
pub open spec fn payload_of(bytes: Seq<u8>) -> Seq<u8> {
    bytes.subrange(9, 7 + declared_len(bytes))
}

/// The checksum that a frame carries behind its payload.
pub open spec fn stored_checksum(bytes: Seq<u8>) -> int {
    be16(bytes[7 + declared_len(bytes)], bytes[8 + declared_len(bytes)])
}

/// The checksum of what a frame holds from its type field to the end of its payload.
pub open spec fn computed_checksum(bytes: Seq<u8>) -> int {
    checksum_spec(bytes.subrange(6, 7 + declared_len(bytes)))
}

/// What decoding `bytes` yields for a session whose sensor has address `expected`.
///
/// The fields are checked in wire order, and each check needs its field to be
/// present: the start marker, the address, the type, then the length. A length
/// below 2 cannot hold the checksum and counts as truncation, as does a frame
/// that ends before its checksum. Bytes behind the checksum are ignored. The
/// checksum itself is compared in strict mode only.
pub open spec fn decode_spec(bytes: Seq<u8>, expected: Seq<u8>, strict: bool) -> Result<
    Seq<u8>,
    ProtocolError,
> {
    if !has_start_code(bytes) {
        Err(ProtocolError::InvalidStartCode)
    } else if bytes.len() < 6 {
        Err(ProtocolError::TruncatedFrame)
    } else if bytes.subrange(2, 6) != expected {
        Err(ProtocolError::AddressMismatch)
    } else if bytes.len() < 7 {
        Err(ProtocolError::TruncatedFrame)
    } else if bytes[6] != ACKPACKET {
        Err(ProtocolError::UnexpectedPacketType)
    } else if bytes.len() < 9 || declared_len(bytes) < 2 || bytes.len() < 9 + declared_len(bytes) {
        Err(ProtocolError::TruncatedFrame)
    } else if strict && stored_checksum(bytes) != computed_checksum(bytes) {
        Err(ProtocolError::ChecksumMismatch)
    } else {
        Ok(payload_of(bytes))
    }
}

/// A result with its success value replaced by that value's view.
pub open spec fn viewed<T: View, E>(r: Result<T, E>) -> Result<T::V, E> {
    match r {
        Ok(value) => Ok(value@),
        Err(e) => Err(e),
    }
}

/// Appending one byte adds it to the sum.
pub proof fn lemma_byte_sum_push(bytes: Seq<u8>, last: u8)
    ensures
        byte_sum(bytes.push(last)) == byte_sum(bytes) + last as int,
{
    assert(bytes.push(last).drop_last() =~= bytes);
}

/// Replacing one byte changes the sum by the difference of the two bytes.
pub proof fn lemma_byte_sum_update(bytes: Seq<u8>, at: int, value: u8)
    requires
        0 <= at < bytes.len(),
    ensures
        byte_sum(bytes.update(at, value)) == byte_sum(bytes) - bytes[at] as int + value as int,
    decreases bytes.len(),
{
    let changed = bytes.update(at, value);
    if at == bytes.len() - 1 {
        assert(changed.drop_last() =~= bytes.drop_last());
    } else {
        lemma_byte_sum_update(bytes.drop_last(), at, value);
        assert(changed.drop_last() =~= bytes.drop_last().update(at, value));
    }
}

/// The checksum of `body`: the sum of its bytes modulo 65536.
pub fn checksum(body: &[u8]) -> (sum: u16)
    ensures
        sum as int == checksum_spec(body@),
{
    let mut sum: u32 = 0;
    let mut i: usize = 0;
    while i < body.len()
        invariant
            i <= body.len(),
            sum < 0x10000,
            sum as int == byte_sum(body@.take(i as int)) % 0x10000,
        decreases body.len() - i,
    {
        proof {
            assert(body@.take(i + 1) =~= body@.take(i as int).push(body@[i as int]));
            lemma_byte_sum_push(body@.take(i as int), body@[i as int]);
        }
        sum = (sum + body[i] as u32) % 0x10000;
        i += 1;
    }
    assert(body@.take(i as int) =~= body@);
    sum as u16
}

/// Builds the frame of type `kind` that carries `payload` for the sensor at `address`.
pub fn encode(address: &[u8; 4], kind: u8, payload: &[u8]) -> (bytes: Vec<u8>)
    requires
        payload.len() <= MAX_PAYLOAD,
    ensures
        bytes@ == frame(address@, kind, payload@),
{
    let start: (u8, u8) = split_u16(STARTCODE);
    let length: (u8, u8) = split_u16((payload.len() + 2) as u16);
    let mut packet: Vec<u8> = Vec::new();
    packet.push(start.0);
    packet.push(start.1);
    packet.extend_from_slice(address.as_slice());
    packet.push(kind);
    packet.push(length.0);
    packet.push(length.1);
    packet.extend_from_slice(payload);
    assert(packet@.subrange(6, packet@.len() as int) =~= frame_body(kind, payload@));
    let sum: (u8, u8) = split_u16(checksum(slice_subrange(packet.as_slice(), 6, packet.len())));
    packet.push(sum.0);
    packet.push(sum.1);
    assert(packet@ =~= frame(address@, kind, payload@));
    packet
}

/// Whether the address field of `bytes` holds `expected`.
fn address_matches(bytes: &[u8], expected: &[u8; 4]) -> (same: bool)
    requires
        bytes.len() >= 6,
    ensures
        same == (bytes@.subrange(2, 6) == expected@),
{
    let ghost field = bytes@.subrange(2, 6);
    assert(field[0] == bytes@[2] && field[1] == bytes@[3] && field[2] == bytes@[4] && field[3]
        == bytes@[5]);
    let same = bytes[2] == expected[0] && bytes[3] == expected[1] && bytes[4] == expected[2]
        && bytes[5] == expected[3];
    if same {
        assert(field =~= expected@);
    }
    same
}

/// Decodes with or without the checksum comparison.
pub fn decode_with(bytes: &[u8], expected_address: &[u8; 4], strict: bool) -> (r: Result<
    Vec<u8>,
    ProtocolError,
>)
    ensures
        viewed(r) == decode_spec(bytes@, expected_address@, strict),
{
    let len: usize = bytes.len();
    if len < 2 || field_at(bytes, 0) != STARTCODE {
        return Err(ProtocolError::InvalidStartCode);
    }
    if len < 6 {
        return Err(ProtocolError::TruncatedFrame);
    }
    if !address_matches(bytes, expected_address) {
        return Err(ProtocolError::AddressMismatch);
    }
    if len < 7 {
        return Err(ProtocolError::TruncatedFrame);
    }
    if bytes[6] != ACKPACKET {
        return Err(ProtocolError::UnexpectedPacketType);
    }
    if len < HEADER_LEN {
        return Err(ProtocolError::TruncatedFrame);
    }
    let declared: usize = field_at(bytes, 7) as usize;
    if declared < 2 || len - HEADER_LEN < declared {
        return Err(ProtocolError::TruncatedFrame);
    }
    let end: usize = 7 + declared;
    if strict && field_at(bytes, end) != checksum(slice_subrange(bytes, 6, end)) {
        return Err(ProtocolError::ChecksumMismatch);
    }
    Ok(slice_to_vec(slice_subrange(bytes, HEADER_LEN, end)))
}

/// Decodes a received frame without comparing its checksum.
///
/// Fails with `InvalidStartCode`, `AddressMismatch`, `UnexpectedPacketType` or
/// `TruncatedFrame` exactly as [`decode_spec`] says, and returns the payload
/// otherwise.
pub fn decode(bytes: &[u8], expected_address: &[u8; 4]) -> (r: Result<Vec<u8>, ProtocolError>)
    ensures
        viewed(r) == decode_spec(bytes@, expected_address@, false),
{
    decode_with(bytes, expected_address, false)
}

/// Decodes a received frame and rejects it with `ChecksumMismatch` when the
/// checksum it carries is not the one its bytes add up to.
pub fn decode_strict(bytes: &[u8], expected_address: &[u8; 4]) -> (r: Result<
    Vec<u8>,
    ProtocolError,
>)
    ensures
        viewed(r) == decode_spec(bytes@, expected_address@, true),
{
    decode_with(bytes, expected_address, true)
}

/// Where the fields of an encoded frame lie.
pub proof fn lemma_frame_layout(address: Seq<u8>, kind: u8, payload: Seq<u8>)
    requires
        address.len() == 4,
        payload.len() <= MAX_PAYLOAD,
    ensures
        frame(address, kind, payload).len() == payload.len() + 11,
        has_start_code(frame(address, kind, payload)),
        frame(address, kind, payload).subrange(2, 6) == address,
        frame(address, kind, payload)[6] == kind,
        declared_len(frame(address, kind, payload)) == payload.len() + 2,
        payload_of(frame(address, kind, payload)) == payload,
        frame(address, kind, payload).subrange(6, payload.len() as int + 9) == frame_body(
            kind,
            payload,
        ),
        stored_checksum(frame(address, kind, payload)) == checksum_spec(frame_body(kind, payload)),
        computed_checksum(frame(address, kind, payload)) == checksum_spec(
            frame_body(kind, payload),
        ),
{
    let f = frame(address, kind, payload);
    let body = frame_body(kind, payload);
    let sum = checksum_spec(body);
    let length = payload.len() as int + 2;
    assert(f.len() == payload.len() + 11);
    assert(f[0] == 0xEF && f[1] == 0x01);
    assert(f.subrange(2, 6) =~= address);
    assert(f[6] == kind);
    assert(f[7] == high_byte(length) && f[8] == low_byte(length));
    assert(be16(high_byte(length), low_byte(length)) == length);
    assert(f.subrange(9, 7 + length) =~= payload);
    assert(f.subrange(6, 7 + length) =~= body);
    assert(f[7 + length] == high_byte(sum) && f[8 + length] == low_byte(sum));
    assert(be16(high_byte(sum), low_byte(sum)) == sum);
}

/// Round trip. A frame that was encoded as an acknowledgement from `address`
/// decodes, for a session that expects `address`, to the payload it was built
/// from, whether or not the checksum is compared; and the checksum it carries
/// is the one recomputed from its bytes. A frame encoded with another type is
/// rejected as `UnexpectedPacketType`.
pub proof fn law_round_trip(address: Seq<u8>, kind: u8, payload: Seq<u8>, strict: bool)
    requires
        address.len() == 4,
        payload.len() <= MAX_PAYLOAD,
    ensures
        kind == ACKPACKET ==> decode_spec(frame(address, kind, payload), address, strict) == Ok::<
            Seq<u8>,
            ProtocolError,
        >(payload),
        kind != ACKPACKET ==> decode_spec(frame(address, kind, payload), address, strict) == Err::<
            Seq<u8>,
            ProtocolError,
        >(ProtocolError::UnexpectedPacketType),
        stored_checksum(frame(address, kind, payload)) == computed_checksum(
            frame(address, kind, payload),
        ),
{
    lemma_frame_layout(address, kind, payload);
}

/// Address enforcement. Bytes that begin with the start marker and carry an
/// address field other than the expected address decode to `AddressMismatch`,
/// whatever follows the address.
pub proof fn law_address_enforced(bytes: Seq<u8>, expected: Seq<u8>, strict: bool)
    requires
        has_start_code(bytes),
        bytes.len() >= 6,
        bytes.subrange(2, 6) != expected,
    ensures
        decode_spec(bytes, expected, strict) == Err::<Seq<u8>, ProtocolError>(
            ProtocolError::AddressMismatch,
        ),
{
}

/// Start-marker enforcement. Bytes that do not begin with the two-byte start
/// marker decode to `InvalidStartCode`, whatever else they hold.
pub proof fn law_start_marker_enforced(bytes: Seq<u8>, expected: Seq<u8>, strict: bool)
    requires
        !has_start_code(bytes),
    ensures
        decode_spec(bytes, expected, strict) == Err::<Seq<u8>, ProtocolError>(
            ProtocolError::InvalidStartCode,
        ),
{
}

/// Tamper detection. Take a valid acknowledgement frame and replace one byte
/// of its payload or of its checksum by a different value: strict decoding
/// fails with `ChecksumMismatch`.
pub proof fn law_tamper_detected(address: Seq<u8>, payload: Seq<u8>, at: int, value: u8)
    requires
        address.len() == 4,
        payload.len() <= MAX_PAYLOAD,
        9 <= at < payload.len() + 11,
        value != frame(address, ACKPACKET, payload)[at],
    ensures
        decode_spec(frame(address, ACKPACKET, payload).update(at, value), address, true) == Err::<
            Seq<u8>,
            ProtocolError,
        >(ProtocolError::ChecksumMismatch),
{
    let f = frame(address, ACKPACKET, payload);
    let g = f.update(at, value);
    let end = 9 + payload.len() as int;
    lemma_frame_layout(address, ACKPACKET, payload);
    assert(g.subrange(2, 6) =~= f.subrange(2, 6));
    assert(declared_len(g) == declared_len(f));
    if at < end {
        assert(g.subrange(6, end) =~= f.subrange(6, end).update(at - 6, value));
        lemma_byte_sum_update(f.subrange(6, end), at - 6, value);
        assert(stored_checksum(g) == stored_checksum(f));
    } else {
        assert(g.subrange(6, end) =~= f.subrange(6, end));
    }
}

/// Tamper rejection for the shortest acknowledgement. Take a valid 12-byte
/// acknowledgement frame (one payload byte) and replace any one of its bytes
/// by a different value: strict decoding fails. The error is that of the
/// first field the change has spoilt: `InvalidStartCode` for the marker,
/// `AddressMismatch` for the address, `UnexpectedPacketType` for the type,
/// `TruncatedFrame` for a length that the twelve bytes cannot hold, and
/// `ChecksumMismatch` for every other change.
pub proof fn law_ack_tamper_rejected(address: Seq<u8>, status: u8, at: int, value: u8)
    requires
        address.len() == 4,
        0 <= at < 12,
        value != frame(address, ACKPACKET, seq![status])[at],
    ensures
        decode_spec(frame(address, ACKPACKET, seq![status]).update(at, value), address, true)
            == Err::<Seq<u8>, ProtocolError>(
            if at < 2 {
                ProtocolError::InvalidStartCode
            } else if at < 6 {
                ProtocolError::AddressMismatch
            } else if at == 6 {
                ProtocolError::UnexpectedPacketType
            } else if at < 9 && !(at == 8 && value == 2) {
                ProtocolError::TruncatedFrame
            } else {
                ProtocolError::ChecksumMismatch
            },
        ),
{
    let payload = seq![status];
    let f = frame(address, ACKPACKET, payload);
    let g = f.update(at, value);
    lemma_frame_layout(address, ACKPACKET, payload);
    if at >= 9 {
        law_tamper_detected(address, payload, at, value);
    } else if at >= 7 {
        assert(g.subrange(2, 6) =~= f.subrange(2, 6));
        assert(f[7] == 0 && f[8] == 3);
        if at == 8 && value == 2 {
            let body = frame_body(ACKPACKET, payload);
            assert(body =~= seq![ACKPACKET, 0u8, 3u8, status]);
            assert(g.subrange(6, 9) =~= seq![ACKPACKET, 0u8, 2u8]);
            assert(byte_sum(body) == 10 + status) by {
                reveal_with_fuel(byte_sum, 5);
            }
            assert(byte_sum(g.subrange(6, 9)) == 9) by {
                reveal_with_fuel(byte_sum, 4);
            }
            assert(g[9] == status);
            assert(g[10] == high_byte(checksum_spec(body)));
        }
    } else if at == 6 {
        assert(g.subrange(2, 6) =~= f.subrange(2, 6));
    } else if at >= 2 {
        assert(g.subrange(2, 6)[at - 2] == value);
        assert(f.subrange(2, 6)[at - 2] == f[at]);
    }
}

} // verus!
