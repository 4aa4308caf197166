//! Events that the runtime reports, decoded from its fixed-size records.

use crate::little_endian::{
    be_u32, le_bytes, le_u32, lemma_le_bytes_of_le_u32, lemma_le_u32_is_swapped_be_u32,
    lemma_le_u32_of_le_bytes, read_u32_le, swap_u32,
};
use crate::c_string::string_from_utf8;
use crate::TrackedDeviceIndex;
use slice_of_array::SliceArrayExt;
use vstd::prelude::*;
use vstd::utf8::{decode_utf8, valid_utf8};

verus! {

/// Bytes that precede the payload in an event record: the event type, the
/// device index and the event's age, four bytes each.
pub const HEADER_SIZE: usize = 12;

/// One event of the runtime, with `N` bytes of payload that are left as the
/// runtime wrote them: how to read them depends on `event_type`.
#[derive(Debug, Clone, Copy, PartialEq, Eq)]
pub struct VREvent<const N: usize> {
    /// Which kind of event this is, in the runtime's numbering.
    pub event_type: u32,
    /// The device that the event comes from.
    pub tracked_device_index: TrackedDeviceIndex,
    /// Seconds since the event occurred: the bit pattern of an IEEE-754
    /// single-precision number.
    pub event_age_bits: u32,
    /// The payload of the record, byte for byte.
    pub data: [u8; N],
}

/// What an event holds, as mathematical values.
pub struct EventView {
    pub event_type: u32,
    pub tracked_device_index: u32,
    pub event_age_bits: u32,
    pub payload: Seq<u8>,
}

impl<const N: usize> View for VREvent<N> {
    type V = EventView;

    open spec fn view(&self) -> EventView {
        EventView {
            event_type: self.event_type,
            tracked_device_index: self.tracked_device_index.0,
            event_age_bits: self.event_age_bits,
            payload: self.data@,
        }
    }
}

/// The event that a record encodes: three little-endian fields of four bytes
/// each, then the payload.
pub open spec fn decode(raw: Seq<u8>) -> EventView
    recommends
        raw.len() >= HEADER_SIZE,
{
    EventView {
        event_type: le_u32(raw.subrange(0, 4)),
        tracked_device_index: le_u32(raw.subrange(4, 8)),
        event_age_bits: le_u32(raw.subrange(8, 12)),
        payload: raw.subrange(12, raw.len() as int),
    }
}

/// The record that encodes an event.
pub open spec fn encode(event: EventView) -> Seq<u8> {
    le_bytes(event.event_type) + le_bytes(event.tracked_device_index) + le_bytes(
        event.event_age_bits,
    ) + event.payload
}

/// A record whose first twelve bytes are the little-endian encodings of `a`,
/// `b` and `c` decodes to an event with these three fields and with the rest
/// of the record as its payload.
pub proof fn lemma_decode_known_fields(raw: Seq<u8>, a: u32, b: u32, c: u32)
    requires
        raw.len() >= HEADER_SIZE,
        raw.subrange(0, 4) == le_bytes(a),
        raw.subrange(4, 8) == le_bytes(b),
        raw.subrange(8, 12) == le_bytes(c),
    ensures
        decode(raw) == (EventView {
            event_type: a,
            tracked_device_index: b,
            event_age_bits: c,
            payload: raw.subrange(12, raw.len() as int),
        }),
{
    lemma_le_u32_of_le_bytes(a);
    lemma_le_u32_of_le_bytes(b);
    lemma_le_u32_of_le_bytes(c);
}

/// Encoding the decoded fields little-endian and appending the payload gives
/// back the record, byte for byte.
pub proof fn lemma_encode_decode(raw: Seq<u8>)
    requires
        raw.len() >= HEADER_SIZE,
    ensures
        encode(decode(raw)) == raw,
{
    lemma_le_bytes_of_le_u32(raw.subrange(0, 4));
    lemma_le_bytes_of_le_u32(raw.subrange(4, 8));
    lemma_le_bytes_of_le_u32(raw.subrange(8, 12));
    assert(raw.subrange(0, 4).subrange(0, 4) =~= raw.subrange(0, 4));
    assert(raw.subrange(4, 8).subrange(0, 4) =~= raw.subrange(4, 8));
    assert(raw.subrange(8, 12).subrange(0, 4) =~= raw.subrange(8, 12));
    assert(encode(decode(raw)) =~= raw);
}

/// Decoding the record that encodes an event gives back the event.
pub proof fn lemma_decode_encode(event: EventView)
    ensures
        encode(event).len() == event.payload.len() + HEADER_SIZE,
        decode(encode(event)) == event,
{
    let raw = encode(event);
    lemma_le_u32_of_le_bytes(event.event_type);
    lemma_le_u32_of_le_bytes(event.tracked_device_index);
    lemma_le_u32_of_le_bytes(event.event_age_bits);
    assert(raw.subrange(0, 4) =~= le_bytes(event.event_type));
    assert(raw.subrange(4, 8) =~= le_bytes(event.tracked_device_index));
    assert(raw.subrange(8, 12) =~= le_bytes(event.event_age_bits));
    assert(raw.subrange(12, raw.len() as int) =~= event.payload);
}

/// The payload of a decoded record is the record without its header: twelve
/// bytes shorter than the record.
pub proof fn lemma_payload_len(raw: Seq<u8>)
    requires
        raw.len() >= HEADER_SIZE,
    ensures
        decode(raw).payload.len() == raw.len() - HEADER_SIZE,
{
}

/// Decoding depends on the bytes of the record and on nothing else: two
/// records with the same bytes, or one record decoded twice, give equal
/// events.
pub proof fn lemma_decode_deterministic(first: Seq<u8>, second: Seq<u8>)
    requires
        first =~= second,
    ensures
        decode(first) == decode(second),
{
}

/// The decoded fields do not depend on the byte order of the host: reading
/// each field in big-endian order and swapping its bytes gives the same
/// event as reading it in little-endian order.
pub proof fn lemma_decode_host_independent(raw: Seq<u8>)
    requires
        raw.len() >= HEADER_SIZE,
    ensures
        decode(raw).event_type == swap_u32(be_u32(raw.subrange(0, 4))),
        decode(raw).tracked_device_index == swap_u32(be_u32(raw.subrange(4, 8))),
        decode(raw).event_age_bits == swap_u32(be_u32(raw.subrange(8, 12))),
{
    lemma_le_u32_is_swapped_be_u32(raw.subrange(0, 4));
    lemma_le_u32_is_swapped_be_u32(raw.subrange(4, 8));
    lemma_le_u32_is_swapped_be_u32(raw.subrange(8, 12));
}

/// `slice_of_array::SliceArrayExt::as_array`: views a slice as an array of the
/// same length, with the same elements in the same order. It panics where
/// the lengths differ, which `requires` rules out.
#[verifier::external_body]
fn as_array<const N: usize>(bytes: &[u8]) -> (array: &[u8; N])
    requires
        bytes@.len() == N,
    ensures
        array@ == bytes@,
{
    SliceArrayExt::as_array(bytes)
}

impl<const N: usize> VREvent<N> {
    /// Decodes a record of `M` bytes. It never fails: the result is `Some` for
    /// every record, and `None` is left to the caller that has no record.
    pub fn parse<const M: usize>(raw: &[u8; M]) -> (event: Option<VREvent<N>>)
        requires
            M == N + HEADER_SIZE,
        ensures
            event matches Some(e) && e@ == decode(raw@),
            event matches Some(e) && e.data@.len() == M - HEADER_SIZE,
    {
        let event_type = read_u32_le(&raw[0..4]);
        let index = read_u32_le(&raw[4..8]);
        let age = read_u32_le(&raw[8..12]);
        let data: [u8; N] = *as_array(&raw[HEADER_SIZE..M]);
        let e = VREvent {
            event_type,
            tracked_device_index: TrackedDeviceIndex(index),
            event_age_bits: age,
            data,
        };
        Some(e)
    }
}

/// The text of a string property that the runtime wrote into `storage`. The
/// runtime counts the terminator in the length that it announces, so the
/// text is all of `storage` but its last byte. The result is `None` where
/// that is not well-formed UTF-8.
pub fn text_without_terminator(storage: Vec<u8>) -> (text: Option<String>)
    requires
        storage@.len() > 0,
    ensures
        text is Some <==> valid_utf8(storage@.drop_last()),
        text matches Some(s) ==> s@ == decode_utf8(storage@.drop_last()),
{
    let ghost written = storage@;
    let mut storage = storage;
    let n = storage.len();
    storage.truncate(n - 1);
    assert(storage@ =~= written.drop_last());
    string_from_utf8(storage)
}

} // verus!
