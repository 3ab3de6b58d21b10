//! The encoder: serializes a positional record into a single outer frame
//! whose payload is the concatenation of seven scalar frames, one per
//! field, keyed 1 through 7.

use vstd::prelude::*;
use crate::tags::{Tag, spec_tag_of, tag_of};
use crate::value::PositionalRecord;
use crate::wire::{push_u16_le, push_u32_le, u16_le_bytes, u32_le_bytes};

verus! {

/// One frame on the wire: `key_id`, `tag` and the payload's byte count,
/// each as two little-endian bytes, followed by the payload itself.
pub open spec fn spec_frame(key_id: u16, tag: u16, payload: Seq<u8>) -> Seq<u8> {
    u16_le_bytes(key_id) + u16_le_bytes(tag) + u16_le_bytes(payload.len() as u16) + payload
}

/// The frame of a 16-bit scalar: a 2-byte payload holding the value.
pub open spec fn spec_encode_u16(value: u16, key_id: u16) -> Seq<u8> {
    spec_frame(key_id, spec_tag_of(Tag::U16Scalar), u16_le_bytes(value))
}

/// The frame of a float scalar: a 4-byte payload holding the bit pattern.
pub open spec fn spec_encode_f32(bits: u32, key_id: u16) -> Seq<u8> {
    spec_frame(key_id, spec_tag_of(Tag::FloatScalar), u32_le_bytes(bits))
}

/// The payload of a record's frame: its seven fields, in fixed order, each
/// as its own scalar frame keyed 1 through 7.
pub open spec fn spec_record_payload(r: PositionalRecord) -> Seq<u8> {
    spec_encode_f32(r.x, 1) + spec_encode_f32(r.y, 2) + spec_encode_f32(r.z, 3) + spec_encode_f32(
        r.rx,
        4,
    ) + spec_encode_f32(r.ry, 5) + spec_encode_f32(r.rz, 6) + spec_encode_u16(r.rot, 7)
}

/// The full message for `r` under `key_id`: one outer record-tagged frame
/// around the seven-field payload.
pub open spec fn spec_encode(r: PositionalRecord, key_id: u16) -> Seq<u8> {
    spec_frame(key_id, spec_tag_of(Tag::PositionalRecord), spec_record_payload(r))
}

/// Encodes a 16-bit scalar as one frame under `key_id`.
pub fn encode_u16(value: u16, key_id: u16) -> (r: Vec<u8>)
    ensures
        r@ == spec_encode_u16(value, key_id),
{
    let mut data: Vec<u8> = Vec::new();
    push_u16_le(&mut data, key_id);
    push_u16_le(&mut data, tag_of(Tag::U16Scalar));
    push_u16_le(&mut data, 2);
    push_u16_le(&mut data, value);
    proof {
        assert(data@ =~= spec_encode_u16(value, key_id));
    }
    data
}

/// Encodes a float scalar, given as its bit pattern, as one frame under
/// `key_id`.
pub fn encode_f32(bits: u32, key_id: u16) -> (r: Vec<u8>)
    ensures
        r@ == spec_encode_f32(bits, key_id),
{
    let mut data: Vec<u8> = Vec::new();
    push_u16_le(&mut data, key_id);
    push_u16_le(&mut data, tag_of(Tag::FloatScalar));
    push_u16_le(&mut data, 4);
    push_u32_le(&mut data, bits);
    proof {
        assert(data@ =~= spec_encode_f32(bits, key_id));
    }
    data
}

/// Encodes `record` as one outer frame under `key_id`. Encoding never
/// fails: every record has exactly one 74-byte message.
pub fn encode(record: PositionalRecord, key_id: u16) -> (r: Vec<u8>)
    ensures
        r@ == spec_encode(record, key_id),
{
    let mut body: Vec<u8> = Vec::new();
    let mut part: Vec<u8> = encode_f32(record.x, 1);
    body.append(&mut part);
    let mut part: Vec<u8> = encode_f32(record.y, 2);
    body.append(&mut part);
    let mut part: Vec<u8> = encode_f32(record.z, 3);
    body.append(&mut part);
    let mut part: Vec<u8> = encode_f32(record.rx, 4);
    body.append(&mut part);
    let mut part: Vec<u8> = encode_f32(record.ry, 5);
    body.append(&mut part);
    let mut part: Vec<u8> = encode_f32(record.rz, 6);
    body.append(&mut part);
    let mut part: Vec<u8> = encode_u16(record.rot, 7);
    body.append(&mut part);
    proof {
        assert(body@ =~= spec_record_payload(record));
        assert(body@.len() == 68);
    }
    let mut message: Vec<u8> = Vec::new();
    push_u16_le(&mut message, key_id);
    push_u16_le(&mut message, tag_of(Tag::PositionalRecord));
    push_u16_le(&mut message, body.len() as u16);
    message.append(&mut body);
    proof {
        assert(message@ =~= spec_encode(record, key_id));
    }
    message
}

} // verus!
