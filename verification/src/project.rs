//! The projection: a total conversion from the decoder's generic mapping
//! into a concrete positional record. A key that is absent, bound to no
//! value, or bound to a value of the wrong kind is substituted by the
//! field's zero and reported in a diagnostics list; projection itself
//! never fails.

use vstd::prelude::*;
use crate::value::{Dict, PositionalRecord, Value, ValueModel};

verus! {

/// The float bits bound to `key` in `d`, where `key` is present and holds
/// a float scalar; `None` otherwise.
pub open spec fn spec_float_field(d: Map<u16, Option<ValueModel>>, key: u16) -> Option<u32> {
    if d.contains_key(key) {
        match d[key] {
            Some(ValueModel::FloatScalar(bits)) => Some(bits),
            _ => None,
        }
    } else {
        None
    }
}

/// The 16-bit value bound to `key` in `d`, where `key` is present and
/// holds a 16-bit scalar; `None` otherwise.
pub open spec fn spec_u16_field(d: Map<u16, Option<ValueModel>>, key: u16) -> Option<u16> {
    if d.contains_key(key) {
        match d[key] {
            Some(ValueModel::U16Scalar(v)) => Some(v),
            _ => None,
        }
    } else {
        None
    }
}

/// `o`'s value, or zero where there is none.
pub open spec fn or_zero_u32(o: Option<u32>) -> u32 {
    match o {
        Some(v) => v,
        None => 0,
    }
}

/// `o`'s value, or zero where there is none.
pub open spec fn or_zero_u16(o: Option<u16>) -> u16 {
    match o {
        Some(v) => v,
        None => 0,
    }
}

/// The record `d` projects to: each of the seven fields is read under its
/// fixed key (x=1, y=2, z=3, rx=4, ry=5, rz=6, rot=7) and defaulted to
/// zero where missing or of the wrong kind.
pub open spec fn spec_project_record(d: Map<u16, Option<ValueModel>>) -> PositionalRecord {
    PositionalRecord {
        x: or_zero_u32(spec_float_field(d, 1)),
        y: or_zero_u32(spec_float_field(d, 2)),
        z: or_zero_u32(spec_float_field(d, 3)),
        rx: or_zero_u32(spec_float_field(d, 4)),
        ry: or_zero_u32(spec_float_field(d, 5)),
        rz: or_zero_u32(spec_float_field(d, 6)),
        rot: or_zero_u16(spec_u16_field(d, 7)),
    }
}

/// The diagnostic entry for one key: the key itself where its field was
/// defaulted, nothing otherwise.
pub open spec fn spec_diag_f32(d: Map<u16, Option<ValueModel>>, key: u16) -> Seq<u16> {
    if spec_float_field(d, key) is None {
        seq![key]
    } else {
        Seq::empty()
    }
}

/// The diagnostic entry for the 16-bit field under `key`.
pub open spec fn spec_diag_u16(d: Map<u16, Option<ValueModel>>, key: u16) -> Seq<u16> {
    if spec_u16_field(d, key) is None {
        seq![key]
    } else {
        Seq::empty()
    }
}

/// The diagnostics of projecting `d`: the keys of the defaulted fields,
/// in field order.
pub open spec fn spec_project_diags(d: Map<u16, Option<ValueModel>>) -> Seq<u16> {
    spec_diag_f32(d, 1) + spec_diag_f32(d, 2) + spec_diag_f32(d, 3) + spec_diag_f32(d, 4)
        + spec_diag_f32(d, 5) + spec_diag_f32(d, 6) + spec_diag_u16(d, 7)
}

/// What projecting `d` yields: the record and the diagnostics.
pub open spec fn spec_project(d: Map<u16, Option<ValueModel>>) -> (PositionalRecord, Seq<u16>) {
    (spec_project_record(d), spec_project_diags(d))
}

/// Reads the float field under `key`, appending `key` to the diagnostics
/// where the field is defaulted.
fn float_field(dict: &Dict, key: u16, diags: &mut Vec<u16>) -> (r: u32)
    ensures
        r == or_zero_u32(spec_float_field(dict.model(), key)),
        final(diags)@ == old(diags)@ + spec_diag_f32(dict.model(), key),
{
    match dict.get(key) {
        Some(Some(Value::FloatScalar(bits))) => {
            proof {
                assert(diags@ =~= old(diags)@ + spec_diag_f32(dict.model(), key));
            }
            *bits
        },
        _ => {
            diags.push(key);
            proof {
                assert(diags@ =~= old(diags)@ + spec_diag_f32(dict.model(), key));
            }
            0
        },
    }
}

/// Reads the 16-bit field under `key`, appending `key` to the diagnostics
/// where the field is defaulted.
fn u16_field(dict: &Dict, key: u16, diags: &mut Vec<u16>) -> (r: u16)
    ensures
        r == or_zero_u16(spec_u16_field(dict.model(), key)),
        final(diags)@ == old(diags)@ + spec_diag_u16(dict.model(), key),
{
    match dict.get(key) {
        Some(Some(Value::U16Scalar(v))) => {
            proof {
                assert(diags@ =~= old(diags)@ + spec_diag_u16(dict.model(), key));
            }
            *v
        },
        _ => {
            diags.push(key);
            proof {
                assert(diags@ =~= old(diags)@ + spec_diag_u16(dict.model(), key));
            }
            0
        },
    }
}

/// Projects `dict` into a positional record. Total: a missing, empty or
/// mismatched field becomes the field's zero, and its key is returned in
/// the diagnostics list, in field order.
pub fn project(dict: &Dict) -> (r: (PositionalRecord, Vec<u16>))
    ensures
        r.0 == spec_project(dict.model()).0,
        r.1@ == spec_project(dict.model()).1,
{
    let mut diags: Vec<u16> = Vec::new();
    let x: u32 = float_field(dict, 1, &mut diags);
    let y: u32 = float_field(dict, 2, &mut diags);
    let z: u32 = float_field(dict, 3, &mut diags);
    let rx: u32 = float_field(dict, 4, &mut diags);
    let ry: u32 = float_field(dict, 5, &mut diags);
    let rz: u32 = float_field(dict, 6, &mut diags);
    let rot: u16 = u16_field(dict, 7, &mut diags);
    let record = PositionalRecord { x, y, z, rx, ry, rz, rot };
    proof {
        assert(diags@ =~= spec_project_diags(dict.model()));
    }
    (record, diags)
}

} // verus!
