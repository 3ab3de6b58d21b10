//! The tag registry: a fixed bidirectional mapping between a value's kind
//! and the 16-bit numeric tag carried on the wire, and the decode errors.
//!
//! The registry is the single place where a numeric code and a kind meet;
//! the encoder and the decoder both consult it and never hard-code a number
//! of their own.

use vstd::prelude::*;

verus! {

/// Wire tag of a 16-bit unsigned scalar.
pub const TAG_U16_SCALAR: u16 = 1;

/// Wire tag of a 32-bit float scalar.
pub const TAG_FLOAT_SCALAR: u16 = 8;

/// Wire tag of a positional record.
pub const TAG_POSITIONAL_RECORD: u16 = 100;

/// A value's kind, as named on the wire by a tag code.
#[derive(Clone, Copy, Debug, PartialEq, Eq, Structural)]
pub enum Tag {
    U16Scalar,
    FloatScalar,
    PositionalRecord,
}

/// Why a decode failed.
#[derive(Clone, Copy, Debug, PartialEq, Eq, Structural)]
pub enum DecodeError {
    /// The tag field holds a code outside the registry; carries that code.
    UnknownTag(u16),
    /// Too few bytes remain for a frame header, for a declared payload
    /// length, or for the width of a scalar payload.
    TruncatedFrame,
}

/// The numeric code of `kind`.
pub open spec fn spec_tag_of(kind: Tag) -> u16 {
    match kind {
        Tag::U16Scalar => TAG_U16_SCALAR,
        Tag::FloatScalar => TAG_FLOAT_SCALAR,
        Tag::PositionalRecord => TAG_POSITIONAL_RECORD,
    }
}

/// The kind registered under the numeric code `code`, if any.
pub open spec fn spec_kind_of(code: u16) -> Option<Tag> {
    if code == TAG_U16_SCALAR {
        Some(Tag::U16Scalar)
    } else if code == TAG_FLOAT_SCALAR {
        Some(Tag::FloatScalar)
    } else if code == TAG_POSITIONAL_RECORD {
        Some(Tag::PositionalRecord)
    } else {
        None
    }
}

/// The numeric code of `kind`; total over the registry.
pub fn tag_of(kind: Tag) -> (r: u16)
    ensures
        r == spec_tag_of(kind),
{
    match kind {
        Tag::U16Scalar => TAG_U16_SCALAR,
        Tag::FloatScalar => TAG_FLOAT_SCALAR,
        Tag::PositionalRecord => TAG_POSITIONAL_RECORD,
    }
}

/// Resolves a numeric code to its kind; a code outside the registry is an
/// `UnknownTag` error, never an unchecked cast.
pub fn kind_of(code: u16) -> (r: Result<Tag, DecodeError>)
    ensures
        r is Ok <==> spec_kind_of(code) is Some,
        r is Ok ==> r->Ok_0 == spec_kind_of(code)->0,
        r is Err ==> r->Err_0 == DecodeError::UnknownTag(code),
{
    if code == TAG_U16_SCALAR {
        Ok(Tag::U16Scalar)
    } else if code == TAG_FLOAT_SCALAR {
        Ok(Tag::FloatScalar)
    } else if code == TAG_POSITIONAL_RECORD {
        Ok(Tag::PositionalRecord)
    } else {
        Err(DecodeError::UnknownTag(code))
    }
}

/// The registry is bidirectional: resolving the code of a kind yields that
/// kind back.
pub proof fn lemma_registry_round_trip(kind: Tag)
    ensures
        spec_kind_of(spec_tag_of(kind)) == Some(kind),
{
}

} // verus!
