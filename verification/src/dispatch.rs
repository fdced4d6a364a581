//! The runtime's dispatch envelope: a tagged union selecting which module a
//! message targets.  A module payload is prefixed with the module's
//! discriminant so a dispatcher can route it without ambiguity.

use crate::codec::write_bytes;
use crate::election::{
    enc_election_call, enc_election_query, encode_election_payload, encode_election_query_payload,
    wf_election_call, ElectionCall, ElectionCallV, ElectionQuery,
};
use crate::errors::EncodingError;
use crate::value_setter::{
    enc_value_setter_call, enc_value_setter_query, encode_value_setter_payload,
    encode_value_setter_query_payload, ValueSetterCall, ValueSetterQuery,
};
use vstd::prelude::*;

verus! {

/// A state-changing message addressed to one module of the runtime.
#[derive(Clone, PartialEq, Eq, Debug)]
pub enum RuntimeCall {
    Election(ElectionCall),
    ValueSetter(ValueSetterCall),
}

/// The mathematical value of a `RuntimeCall`.
pub enum RuntimeCallV {
    Election(ElectionCallV),
    ValueSetter(ValueSetterCall),
}

impl View for RuntimeCall {
    type V = RuntimeCallV;

    open spec fn view(&self) -> RuntimeCallV {
        match self {
            RuntimeCall::Election(c) => RuntimeCallV::Election(c@),
            RuntimeCall::ValueSetter(c) => RuntimeCallV::ValueSetter(*c),
        }
    }
}

/// A read-only message addressed to one module of the runtime.
#[derive(Clone, Copy, PartialEq, Eq, Structural, Debug)]
pub enum RuntimeQuery {
    Election(ElectionQuery),
    ValueSetter(ValueSetterQuery),
}

/// Wire form of a dispatched call: the module's discriminant, then the
/// module's own encoding of the message.
pub open spec fn enc_runtime_call(rc: RuntimeCallV) -> Seq<u8> {
    match rc {
        RuntimeCallV::Election(c) => seq![0u8] + enc_election_call(c),
        RuntimeCallV::ValueSetter(c) => seq![1u8] + enc_value_setter_call(c),
    }
}

/// The dispatched call's payload fits the wire format's length fields.
pub open spec fn wf_runtime_call(rc: RuntimeCallV) -> bool {
    match rc {
        RuntimeCallV::Election(c) => wf_election_call(c),
        RuntimeCallV::ValueSetter(_) => true,
    }
}

/// Wire form of a dispatched query: the module's discriminant, then the
/// module's own encoding of the query.
pub open spec fn enc_runtime_query(q: RuntimeQuery) -> Seq<u8> {
    match q {
        RuntimeQuery::Election(eq) => seq![0u8] + enc_election_query(eq),
        RuntimeQuery::ValueSetter(vq) => seq![1u8] + enc_value_setter_query(vq),
    }
}

/// Encodes an election call and wraps it for dispatch.  Fails exactly when
/// the module's own encoder rejects the message.
pub fn encode_election_call(c: &ElectionCall) -> (r: Result<Vec<u8>, EncodingError>)
    ensures
        r is Ok <==> wf_election_call(c@),
        r matches Ok(b) ==> b@ == enc_runtime_call(RuntimeCallV::Election(c@)),
{
    let payload = match encode_election_payload(c) {
        Ok(b) => b,
        Err(e) => {
            return Err(e);
        },
    };
    let mut out: Vec<u8> = Vec::new();
    out.push(0u8);
    write_bytes(&mut out, payload.as_slice());
    assert(out@ =~= seq![0u8] + enc_election_call(c@));
    Ok(out)
}

/// Encodes a value-setter call and wraps it for dispatch.  The value-setter
/// payload is fixed-width, so this encoding cannot fail.
pub fn encode_value_setter_call(c: &ValueSetterCall) -> (r: Vec<u8>)
    ensures
        r@ == enc_runtime_call(RuntimeCallV::ValueSetter(*c)),
{
    let payload = encode_value_setter_payload(c);
    let mut out: Vec<u8> = Vec::new();
    out.push(1u8);
    write_bytes(&mut out, payload.as_slice());
    assert(out@ =~= seq![1u8] + enc_value_setter_call(*c));
    out
}

/// Encodes an election query and wraps it for dispatch.  A query is a
/// standalone payload: no transaction envelope, no signer, no nonce.
pub fn encode_election_query(q: &ElectionQuery) -> (r: Vec<u8>)
    ensures
        r@ == enc_runtime_query(RuntimeQuery::Election(*q)),
{
    let payload = encode_election_query_payload(q);
    let mut out: Vec<u8> = Vec::new();
    out.push(0u8);
    write_bytes(&mut out, payload.as_slice());
    assert(out@ =~= seq![0u8] + enc_election_query(*q));
    out
}

/// Encodes a value-setter query and wraps it for dispatch.  A query is a
/// standalone payload: no transaction envelope, no signer, no nonce.
pub fn encode_value_setter_query(q: &ValueSetterQuery) -> (r: Vec<u8>)
    ensures
        r@ == enc_runtime_query(RuntimeQuery::ValueSetter(*q)),
{
    let payload = encode_value_setter_query_payload(q);
    let mut out: Vec<u8> = Vec::new();
    out.push(1u8);
    write_bytes(&mut out, payload.as_slice());
    assert(out@ =~= seq![1u8] + enc_value_setter_query(*q));
    out
}

} // verus!
