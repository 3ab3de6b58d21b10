//! The decoder: parses a byte buffer into the generic dictionary, reading
//! frames until the input is exhausted and dispatching on each frame's
//! tag through the registry. A tag outside the registry or a frame with
//! too few bytes aborts the whole decode with a structured error; a
//! record-tagged frame is decoded recursively and projected on the spot.
//!
//! The recursion is bounded on any input, well-formed or not: a nested
//! payload is strictly shorter than the buffer around it, which is also
//! the proved termination measure, so the depth never exceeds a sixth of
//! the buffer's length.

use vstd::prelude::*;
use crate::project::{project, spec_project};
use crate::tags::{DecodeError, Tag, kind_of, spec_kind_of};
use crate::value::{Dict, Value, ValueModel};
use crate::wire::{read_u16_le, read_u32_le, u16_from_le, u32_from_le};

verus! {

/// What decoding `b` on top of the already-accumulated mapping `acc`
/// yields. Frames are read front to back; a later frame under an already
/// bound key shadows the earlier binding (last write wins).
pub open spec fn spec_decode_frames(b: Seq<u8>, acc: Map<u16, Option<ValueModel>>) -> Result<
    Map<u16, Option<ValueModel>>,
    DecodeError,
>
    decreases b.len(),
{
    if b.len() == 0 {
        Ok(acc)
    } else if b.len() < 6 {
        Err(DecodeError::TruncatedFrame)
    } else {
        let key_id = u16_from_le(b[0], b[1]);
        let code = u16_from_le(b[2], b[3]);
        let len = u16_from_le(b[4], b[5]) as int;
        if b.len() < 6 + len {
            Err(DecodeError::TruncatedFrame)
        } else {
            let payload = b.subrange(6, 6 + len);
            let rest = b.subrange(6 + len, b.len() as int);
            match spec_kind_of(code) {
                None => Err(DecodeError::UnknownTag(code)),
                Some(Tag::U16Scalar) => if len < 2 {
                    Err(DecodeError::TruncatedFrame)
                } else {
                    spec_decode_frames(
                        rest,
                        acc.insert(
                            key_id,
                            Some(ValueModel::U16Scalar(u16_from_le(payload[0], payload[1]))),
                        ),
                    )
                },
                Some(Tag::FloatScalar) => if len < 4 {
                    Err(DecodeError::TruncatedFrame)
                } else {
                    spec_decode_frames(
                        rest,
                        acc.insert(
                            key_id,
                            Some(
                                ValueModel::FloatScalar(
                                    u32_from_le(payload[0], payload[1], payload[2], payload[3]),
                                ),
                            ),
                        ),
                    )
                },
                Some(Tag::PositionalRecord) => match spec_decode_frames(payload, Map::empty()) {
                    Ok(nested) => spec_decode_frames(
                        rest,
                        acc.insert(
                            key_id,
                            Some(ValueModel::PositionalRecord(spec_project(nested).0)),
                        ),
                    ),
                    Err(e) => Err(e),
                },
            }
        }
    }
}

/// What decoding `b` from scratch yields.
pub open spec fn spec_decode(b: Seq<u8>) -> Result<Map<u16, Option<ValueModel>>, DecodeError> {
    spec_decode_frames(b, Map::empty())
}

/// Decodes the bytes `bytes[start..end]` into a dictionary.
fn decode_range(bytes: &Vec<u8>, start: usize, end: usize) -> (r: Result<Dict, DecodeError>)
    requires
        start <= end <= bytes@.len(),
    ensures
        match r {
            Ok(d) => spec_decode(bytes@.subrange(start as int, end as int)) == Ok::<
                Map<u16, Option<ValueModel>>,
                DecodeError,
            >(d.model()),
            Err(e) => spec_decode(bytes@.subrange(start as int, end as int)) == Err::<
                Map<u16, Option<ValueModel>>,
                DecodeError,
            >(e),
        },
    decreases end - start,
{
    let mut dict = Dict::new();
    let mut pos: usize = start;
    while pos < end
        invariant
            start <= pos <= end <= bytes@.len(),
            spec_decode_frames(bytes@.subrange(pos as int, end as int), dict.model())
                == spec_decode_frames(
                bytes@.subrange(start as int, end as int),
                Map::<u16, Option<ValueModel>>::empty(),
            ),
        decreases end - pos,
    {
        let ghost frame = bytes@.subrange(pos as int, end as int);
        if end - pos < 6 {
            return Err(DecodeError::TruncatedFrame);
        }
        let key_id: u16 = read_u16_le(bytes, pos);
        let code: u16 = read_u16_le(bytes, pos + 2);
        let len: usize = read_u16_le(bytes, pos + 4) as usize;
        if end - pos - 6 < len {
            return Err(DecodeError::TruncatedFrame);
        }
        proof {
            assert(frame.subrange(6, 6 + len as int) =~= bytes@.subrange(
                pos + 6,
                pos + 6 + len as int,
            ));
            assert(frame.subrange(6 + len as int, frame.len() as int) =~= bytes@.subrange(
                pos + 6 + len as int,
                end as int,
            ));
        }
        let kind = match kind_of(code) {
            Ok(k) => k,
            Err(e) => {
                return Err(e);
            },
        };
        match kind {
            Tag::U16Scalar => {
                if len < 2 {
                    return Err(DecodeError::TruncatedFrame);
                }
                let v: u16 = read_u16_le(bytes, pos + 6);
                dict.insert(key_id, Some(Value::U16Scalar(v)));
            },
            Tag::FloatScalar => {
                if len < 4 {
                    return Err(DecodeError::TruncatedFrame);
                }
                let v: u32 = read_u32_le(bytes, pos + 6);
                dict.insert(key_id, Some(Value::FloatScalar(v)));
            },
            Tag::PositionalRecord => {
                let nested = match decode_range(bytes, pos + 6, pos + 6 + len) {
                    Ok(d) => d,
                    Err(e) => {
                        return Err(e);
                    },
                };
                let projected = project(&nested);
                dict.insert(key_id, Some(Value::PositionalRecord(projected.0)));
            },
        }
        pos = pos + 6 + len;
    }
    proof {
        assert(bytes@.subrange(pos as int, end as int) =~= Seq::<u8>::empty());
    }
    Ok(dict)
}

/// Decodes a byte buffer into a generic dictionary value. The result is
/// always the `Dict` variant; a tag outside the registry yields
/// `UnknownTag`, and too few bytes for a header, a declared payload or a
/// scalar's width yield `TruncatedFrame`, in either case without
/// returning any partial result.
pub fn decode(bytes: &Vec<u8>) -> (r: Result<Value, DecodeError>)
    ensures
        match r {
            Ok(v) => v is Dict && spec_decode(bytes@) == Ok::<
                Map<u16, Option<ValueModel>>,
                DecodeError,
            >(v.model()->Dict_0),
            Err(e) => spec_decode(bytes@) == Err::<Map<u16, Option<ValueModel>>, DecodeError>(e),
        },
{
    proof {
        assert(bytes@.subrange(0, bytes@.len() as int) =~= bytes@);
    }
    match decode_range(bytes, 0, bytes.len()) {
        Ok(d) => Ok(Value::Dict(d)),
        Err(e) => Err(e),
    }
}

} // verus!
