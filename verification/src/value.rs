//! The value model: the positional record, the tagged union of encodable
//! and decodable values, and the decoder's generic dictionary, together
//! with the mathematical model of each.

use vstd::prelude::*;

verus! {

/// A 3D position and orientation: six 32-bit floats, carried as their
/// IEEE-754 bit patterns, and a 16-bit unsigned rotation mode.
#[derive(Clone, Copy, Debug, PartialEq, Eq, Structural)]
pub struct PositionalRecord {
    /// Bit pattern of the x coordinate.
    pub x: u32,
    /// Bit pattern of the y coordinate.
    pub y: u32,
    /// Bit pattern of the z coordinate.
    pub z: u32,
    /// Bit pattern of the rotation about x.
    pub rx: u32,
    /// Bit pattern of the rotation about y.
    pub ry: u32,
    /// Bit pattern of the rotation about z.
    pub rz: u32,
    /// Rotation mode.
    pub rot: u16,
}

/// Every encodable or decodable value. `Dict` is the decoder's output
/// shape: a generic mapping from a 16-bit key to an optional value; it is
/// never constructed by the encoder.
pub enum Value {
    /// A 32-bit float scalar, carried as its IEEE-754 bit pattern.
    FloatScalar(u32),
    /// A 16-bit unsigned scalar.
    U16Scalar(u16),
    /// A composite positional record.
    PositionalRecord(PositionalRecord),
    /// A generic key-addressed mapping.
    Dict(Dict),
}

/// The decoder's generic mapping from key to optional value. Entries are
/// kept in insertion order; a later entry with the same key shadows an
/// earlier one, so the mathematical model is a map in which the last write
/// wins.
pub struct Dict {
    entries: Vec<(u16, Option<Value>)>,
}

/// The mathematical counterpart of a `Value`: a dictionary is abstracted
/// to the map its entries denote.
pub enum ValueModel {
    FloatScalar(u32),
    U16Scalar(u16),
    PositionalRecord(PositionalRecord),
    Dict(Map<u16, Option<ValueModel>>),
}

impl Value {
    /// The mathematical value this value denotes.
    pub open spec fn model(self) -> ValueModel
        decreases self,
    {
        match self {
            Value::FloatScalar(bits) => ValueModel::FloatScalar(bits),
            Value::U16Scalar(v) => ValueModel::U16Scalar(v),
            Value::PositionalRecord(r) => ValueModel::PositionalRecord(r),
            Value::Dict(d) => ValueModel::Dict(d.model()),
        }
    }
}

/// The model of one optional value.
pub open spec fn option_model(v: Option<Value>) -> Option<ValueModel>
    decreases v,
{
    match v {
        None => None,
        Some(x) => Some(x.model()),
    }
}

/// The map denoted by a sequence of entries: later entries shadow earlier
/// ones with the same key.
spec fn entries_model(s: Seq<(u16, Option<Value>)>) -> Map<u16, Option<ValueModel>>
    decreases s,
{
    if s.len() == 0 {
        Map::empty()
    } else {
        entries_model(s.drop_last()).insert(s.last().0, option_model(s.last().1))
    }
}

impl Dict {
    /// The map this dictionary denotes.
    pub closed spec fn model(self) -> Map<u16, Option<ValueModel>>
        decreases self,
    {
        entries_model(self.entries@)
    }

    /// An empty dictionary.
    pub fn new() -> (d: Dict)
        ensures
            d.model() == Map::<u16, Option<ValueModel>>::empty(),
    {
        Dict { entries: Vec::new() }
    }

    /// Binds `key` to `value`; an earlier binding of `key` is shadowed.
    pub fn insert(&mut self, key: u16, value: Option<Value>)
        ensures
            final(self).model() == old(self).model().insert(key, option_model(value)),
    {
        self.entries.push((key, value));
        proof {
            assert(self.entries@.drop_last() =~= old(self).entries@);
        }
    }

    /// Looks `key` up: the latest value bound to it, or `None` where no
    /// entry carries it.
    pub fn get(&self, key: u16) -> (r: Option<&Option<Value>>)
        ensures
            match r {
                Some(v) => self.model().contains_key(key) && option_model(*v) == self.model()[key],
                None => !self.model().contains_key(key),
            },
    {
        let n: usize = self.entries.len();
        let mut i: usize = n;
        while i > 0
            invariant
                i <= n,
                n == self.entries@.len(),
                forall|j: int| i <= j < n ==> (#[trigger] self.entries@[j]).0 != key,
            decreases i,
        {
            i = i - 1;
            if self.entries[i].0 == key {
                proof {
                    lemma_entries_model_last_match(self.entries@, i as int, key);
                }
                return Some(&self.entries[i].1);
            }
        }
        proof {
            lemma_entries_model_no_match(self.entries@, key);
        }
        None
    }
}

/// Where `s[i]` carries `key` and no later entry does, the map `s` denotes
/// binds `key` to the model of `s[i]`'s value.
proof fn lemma_entries_model_last_match(s: Seq<(u16, Option<Value>)>, i: int, key: u16)
    requires
        0 <= i < s.len(),
        s[i].0 == key,
        forall|j: int| i < j < s.len() ==> (#[trigger] s[j]).0 != key,
    ensures
        entries_model(s).contains_key(key),
        entries_model(s)[key] == option_model(s[i].1),
    decreases s.len(),
{
    if i == s.len() - 1 {
    } else {
        lemma_entries_model_last_match(s.drop_last(), i, key);
    }
}

/// Where no entry of `s` carries `key`, the map `s` denotes has no binding
/// for it.
proof fn lemma_entries_model_no_match(s: Seq<(u16, Option<Value>)>, key: u16)
    requires
        forall|j: int| 0 <= j < s.len() ==> (#[trigger] s[j]).0 != key,
    ensures
        !entries_model(s).contains_key(key),
    decreases s.len(),
{
    if s.len() > 0 {
        lemma_entries_model_no_match(s.drop_last(), key);
    }
}

} // verus!
