//! The value-setter module's message set and its wire format: a single
//! state-changing call that overwrites the stored value, and a single
//! read-only query.

use crate::codec::{le32, write_u32_le};
use vstd::prelude::*;

verus! {

/// The payload of a value-setter update: the value the module should store.
#[derive(Clone, Copy, PartialEq, Eq, Structural, Debug)]
pub struct SetValue {
    pub new_value: u32,
}

/// A state-changing instruction for the value-setter module.
#[derive(Clone, Copy, PartialEq, Eq, Structural, Debug)]
pub enum ValueSetterCall {
    /// Overwrite the stored value; a later `DoSetValue` wins.
    DoSetValue(SetValue),
}

/// A read-only query for the value-setter module.
#[derive(Clone, Copy, PartialEq, Eq, Structural, Debug)]
pub enum ValueSetterQuery {
    /// Read the stored value.
    GetValue,
}

/// Wire form of a value-setter call: a variant tag, then the new value in
/// little-endian order.
pub open spec fn enc_value_setter_call(c: ValueSetterCall) -> Seq<u8> {
    match c {
        ValueSetterCall::DoSetValue(v) => seq![0u8] + le32(v.new_value),
    }
}

/// Wire form of a value-setter query: the variant tag alone.
pub open spec fn enc_value_setter_query(q: ValueSetterQuery) -> Seq<u8> {
    match q {
        ValueSetterQuery::GetValue => seq![0u8],
    }
}

/// Encodes `c` in the value-setter module's canonical binary format.
pub fn encode_value_setter_payload(c: &ValueSetterCall) -> (r: Vec<u8>)
    ensures
        r@ == enc_value_setter_call(*c),
{
    match c {
        ValueSetterCall::DoSetValue(v) => {
            let mut out: Vec<u8> = Vec::new();
            out.push(0u8);
            write_u32_le(&mut out, v.new_value);
            assert(out@ =~= seq![0u8] + le32(v.new_value));
            out
        },
    }
}

/// Encodes `q` in the value-setter module's canonical binary format.
pub fn encode_value_setter_query_payload(q: &ValueSetterQuery) -> (r: Vec<u8>)
    ensures
        r@ == enc_value_setter_query(*q),
{
    let mut out: Vec<u8> = Vec::new();
    out.push(0u8);
    assert(out@ =~= seq![0u8]);
    out
}

} // verus!
