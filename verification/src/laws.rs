//! The laws of the codec, each stated over the spec functions that the
//! executable functions are proved against: the round trip from a record
//! through bytes and back, rejection of unregistered tags, detection of
//! truncated input, defaulting of missing fields, and the last-write-wins
//! policy for duplicate keys.

use vstd::prelude::*;
use crate::decode::{spec_decode, spec_decode_frames};
use crate::encode::{spec_encode, spec_encode_f32, spec_encode_u16, spec_record_payload};
use crate::project::{spec_diag_f32, spec_float_field, spec_project, spec_u16_field};
use crate::tags::{DecodeError, spec_kind_of};
use crate::value::{PositionalRecord, ValueModel};
use crate::wire::{
    lemma_u16_le_round_trip,
    lemma_u32_le_round_trip,
    u16_from_le,
    u16_le_bytes,
    u32_le_bytes,
};

verus! {

/// The dictionary that the seven-field payload of `r` decodes to: each
/// field's value under its fixed key.
pub open spec fn spec_record_map(r: PositionalRecord) -> Map<u16, Option<ValueModel>> {
    Map::<u16, Option<ValueModel>>::empty().insert(1, Some(ValueModel::FloatScalar(r.x))).insert(
        2,
        Some(ValueModel::FloatScalar(r.y)),
    ).insert(3, Some(ValueModel::FloatScalar(r.z))).insert(
        4,
        Some(ValueModel::FloatScalar(r.rx)),
    ).insert(5, Some(ValueModel::FloatScalar(r.ry))).insert(
        6,
        Some(ValueModel::FloatScalar(r.rz)),
    ).insert(7, Some(ValueModel::U16Scalar(r.rot)))
}

/// Decoding a float scalar's frame binds its key to its bits and goes on
/// with the rest of the buffer.
proof fn lemma_decode_step_f32(bits: u32, key: u16, rest: Seq<u8>, acc: Map<u16, Option<ValueModel>>)
    ensures
        spec_decode_frames(spec_encode_f32(bits, key) + rest, acc) == spec_decode_frames(
            rest,
            acc.insert(key, Some(ValueModel::FloatScalar(bits))),
        ),
{
    let b = spec_encode_f32(bits, key) + rest;
    lemma_u16_le_round_trip(key);
    lemma_u16_le_round_trip(crate::tags::TAG_FLOAT_SCALAR);
    lemma_u16_le_round_trip(4);
    lemma_u32_le_round_trip(bits);
    assert(b.subrange(6, 10) =~= u32_le_bytes(bits));
    assert(b.subrange(10, b.len() as int) =~= rest);
}

/// Decoding a 16-bit scalar's frame binds its key to its value and goes
/// on with the rest of the buffer.
proof fn lemma_decode_step_u16(value: u16, key: u16, rest: Seq<u8>, acc: Map<u16, Option<ValueModel>>)
    ensures
        spec_decode_frames(spec_encode_u16(value, key) + rest, acc) == spec_decode_frames(
            rest,
            acc.insert(key, Some(ValueModel::U16Scalar(value))),
        ),
{
    let b = spec_encode_u16(value, key) + rest;
    lemma_u16_le_round_trip(key);
    lemma_u16_le_round_trip(crate::tags::TAG_U16_SCALAR);
    lemma_u16_le_round_trip(2);
    lemma_u16_le_round_trip(value);
    assert(b.subrange(6, 8) =~= u16_le_bytes(value));
    assert(b.subrange(8, b.len() as int) =~= rest);
}

/// The seven-field payload of `r` decodes to exactly the map of `r`'s
/// fields under their fixed keys.
proof fn lemma_decode_record_payload(r: PositionalRecord)
    ensures
        spec_decode(spec_record_payload(r)) == Ok::<Map<u16, Option<ValueModel>>, DecodeError>(
            spec_record_map(r),
        ),
{
    let f1 = spec_encode_f32(r.x, 1);
    let f2 = spec_encode_f32(r.y, 2);
    let f3 = spec_encode_f32(r.z, 3);
    let f4 = spec_encode_f32(r.rx, 4);
    let f5 = spec_encode_f32(r.ry, 5);
    let f6 = spec_encode_f32(r.rz, 6);
    let f7 = spec_encode_u16(r.rot, 7);
    let m0 = Map::<u16, Option<ValueModel>>::empty();
    let m1 = m0.insert(1, Some(ValueModel::FloatScalar(r.x)));
    let m2 = m1.insert(2, Some(ValueModel::FloatScalar(r.y)));
    let m3 = m2.insert(3, Some(ValueModel::FloatScalar(r.z)));
    let m4 = m3.insert(4, Some(ValueModel::FloatScalar(r.rx)));
    let m5 = m4.insert(5, Some(ValueModel::FloatScalar(r.ry)));
    let m6 = m5.insert(6, Some(ValueModel::FloatScalar(r.rz)));
    assert(spec_record_payload(r) =~= f1 + (f2 + (f3 + (f4 + (f5 + (f6 + f7))))));
    lemma_decode_step_f32(r.x, 1, f2 + (f3 + (f4 + (f5 + (f6 + f7)))), m0);
    lemma_decode_step_f32(r.y, 2, f3 + (f4 + (f5 + (f6 + f7))), m1);
    lemma_decode_step_f32(r.z, 3, f4 + (f5 + (f6 + f7)), m2);
    lemma_decode_step_f32(r.rx, 4, f5 + (f6 + f7), m3);
    lemma_decode_step_f32(r.ry, 5, f6 + f7, m4);
    lemma_decode_step_f32(r.rz, 6, f7, m5);
    assert(f7 =~= f7 + Seq::<u8>::empty());
    lemma_decode_step_u16(r.rot, 7, Seq::<u8>::empty(), m6);
}

/// Projecting the map of `r`'s fields yields `r` back, with nothing
/// defaulted.
proof fn lemma_project_record_map(r: PositionalRecord)
    ensures
        spec_project(spec_record_map(r)) == (r, Seq::<u16>::empty()),
{
    assert(spec_project(spec_record_map(r)).0 == r);
    assert(spec_project(spec_record_map(r)).1 =~= Seq::<u16>::empty());
}

/// Round trip: for every record `r` and key, the encoded message decodes
/// to the dictionary binding that key to `r` itself; the seven-field
/// payload decodes to the map of `r`'s fields, and projecting that map
/// yields `r` with an empty diagnostics list. Exact equality throughout:
/// no field is altered on the way.
#[verifier::rlimit(50)]
pub proof fn lemma_round_trip(r: PositionalRecord, key_id: u16)
    ensures
        spec_decode(spec_encode(r, key_id)) == Ok::<Map<u16, Option<ValueModel>>, DecodeError>(
            Map::<u16, Option<ValueModel>>::empty().insert(
                key_id,
                Some(ValueModel::PositionalRecord(r)),
            ),
        ),
        spec_decode(spec_record_payload(r)) == Ok::<Map<u16, Option<ValueModel>>, DecodeError>(
            spec_record_map(r),
        ),
        spec_project(spec_record_map(r)) == (r, Seq::<u16>::empty()),
{
    lemma_decode_record_payload(r);
    lemma_project_record_map(r);
    let b = spec_encode(r, key_id);
    let payload = spec_record_payload(r);
    lemma_u16_le_round_trip(key_id);
    lemma_u16_le_round_trip(crate::tags::TAG_POSITIONAL_RECORD);
    lemma_u16_le_round_trip(68);
    assert(payload.len() == 68);
    assert(b.len() == 74);
    assert(u16_from_le(b[0], b[1]) == key_id);
    assert(u16_from_le(b[2], b[3]) == crate::tags::TAG_POSITIONAL_RECORD);
    assert(u16_from_le(b[4], b[5]) == 68);
    assert(b.subrange(6, 74) =~= payload);
    assert(b.subrange(74, b.len() as int) =~= Seq::<u8>::empty());
    let m = Map::<u16, Option<ValueModel>>::empty().insert(
        key_id,
        Some(ValueModel::PositionalRecord(r)),
    );
    assert(spec_decode_frames(Seq::<u8>::empty(), m) == Ok::<
        Map<u16, Option<ValueModel>>,
        DecodeError,
    >(m));
}

/// Decoding the same buffer twice yields structurally equal dictionaries:
/// any two values that `decode` may return for one buffer have the same
/// model, since that model is a function of the bytes alone.
pub proof fn lemma_decode_idempotent_shape(b: Seq<u8>, v1: crate::value::Value, v2: crate::value::Value)
    requires
        v1 is Dict,
        v2 is Dict,
        spec_decode(b) == Ok::<Map<u16, Option<ValueModel>>, DecodeError>(v1.model()->Dict_0),
        spec_decode(b) == Ok::<Map<u16, Option<ValueModel>>, DecodeError>(v2.model()->Dict_0),
    ensures
        v1.model() == v2.model(),
{
}

/// A buffer whose first frame carries a tag outside the registry, with
/// its declared payload present, decodes to `UnknownTag` carrying that
/// code — and to nothing else.
pub proof fn lemma_unknown_tag_rejected(b: Seq<u8>)
    requires
        b.len() >= 6,
        6 + u16_from_le(b[4], b[5]) <= b.len(),
        spec_kind_of(u16_from_le(b[2], b[3])) is None,
    ensures
        spec_decode(b) == Err::<Map<u16, Option<ValueModel>>, DecodeError>(
            DecodeError::UnknownTag(u16_from_le(b[2], b[3])),
        ),
{
}

/// A non-empty buffer with too few bytes for a frame header, or whose
/// declared payload length exceeds the bytes that remain, decodes to
/// `TruncatedFrame`.
pub proof fn lemma_truncation_detected(b: Seq<u8>)
    requires
        b.len() > 0,
        b.len() < 6 || 6 + u16_from_le(b[4], b[5]) > b.len(),
    ensures
        spec_decode(b) == Err::<Map<u16, Option<ValueModel>>, DecodeError>(
            DecodeError::TruncatedFrame,
        ),
{
}

/// A dictionary with no binding for key 3 projects to a record whose `z`
/// is zero, and the diagnostics cite key 3; every other field is read
/// from its own key as usual.
pub proof fn lemma_missing_field_defaulted(d: Map<u16, Option<ValueModel>>)
    requires
        !d.contains_key(3),
    ensures
        spec_project(d).0.z == 0,
        spec_project(d).1.contains(3),
        spec_project(d).0.x == crate::project::or_zero_u32(spec_float_field(d, 1)),
        spec_project(d).0.rot == crate::project::or_zero_u16(spec_u16_field(d, 7)),
{
    let ds = spec_project(d).1;
    let i: nat = spec_diag_f32(d, 1).len() + spec_diag_f32(d, 2).len();
    assert(ds[i as int] == 3);
    assert(0 <= i < ds.len());
}

/// Two frames under one key: the later one wins, and only its value
/// stands in the decoded dictionary.
pub proof fn lemma_duplicate_key_last_wins(key: u16, first: u16, second: u16)
    ensures
        spec_decode(spec_encode_u16(first, key) + spec_encode_u16(second, key)) == Ok::<
            Map<u16, Option<ValueModel>>,
            DecodeError,
        >(Map::<u16, Option<ValueModel>>::empty().insert(key, Some(ValueModel::U16Scalar(second)))),
{
    let m0 = Map::<u16, Option<ValueModel>>::empty();
    let m1 = m0.insert(key, Some(ValueModel::U16Scalar(first)));
    lemma_decode_step_u16(first, key, spec_encode_u16(second, key), m0);
    assert(spec_encode_u16(second, key) =~= spec_encode_u16(second, key) + Seq::<u8>::empty());
    lemma_decode_step_u16(second, key, Seq::<u8>::empty(), m1);
    assert(m1.insert(key, Some(ValueModel::U16Scalar(second))) =~= m0.insert(
        key,
        Some(ValueModel::U16Scalar(second)),
    ));
}

} // verus!
