//! The decoders symmetric to the encoding pipeline: they reconstruct a
//! transaction envelope from its bytes and a dispatched module call or
//! query from a runtime message.  Decoding inverts encoding exactly; the
//! round-trip lemmas at the end state that inversion.

use crate::codec::{
    dec32, dec64, enc_bytes, le32, le64, lemma_le32_dec32, lemma_le64_dec64, read_range,
    read_u32_le, read_u64_le,
};
use crate::dispatch::{
    enc_runtime_call, enc_runtime_query, wf_runtime_call, RuntimeCall, RuntimeCallV,
    RuntimeQuery,
};
use crate::election::{
    enc_election_call, enc_names, wf_election_call, ElectionCall, ElectionCallV, ElectionQuery,
};
use crate::identity::Identity;
use crate::tx::{enc_tx, wf_tx, Transaction, TransactionV};
use crate::value_setter::{enc_value_setter_call, SetValue, ValueSetterCall, ValueSetterQuery};
use vstd::prelude::*;
use vstd::utf8::{
    decode_utf8, encode_utf8, encode_utf8_decode_utf8, encode_utf8_valid_utf8, valid_utf8,
};

verus! {

/// The transaction whose wire form is exactly `b`, if any: each byte-string
/// field is read behind its length, the nonce closes the buffer, and no
/// byte may be left over.
pub open spec fn dec_tx(b: Seq<u8>) -> Option<TransactionV> {
    if b.len() < 4 {
        None
    } else {
        let n1 = dec32(b.subrange(0, 4)) as int;
        if b.len() < 8 + n1 {
            None
        } else {
            let n2 = dec32(b.subrange(4 + n1, 8 + n1)) as int;
            if b.len() < 12 + n1 + n2 {
                None
            } else {
                let n3 = dec32(b.subrange(8 + n1 + n2, 12 + n1 + n2)) as int;
                if b.len() != 20 + n1 + n2 + n3 {
                    None
                } else {
                    Some(
                        TransactionV {
                            signature: b.subrange(4, 4 + n1),
                            runtime_msg: b.subrange(8 + n1, 8 + n1 + n2),
                            pub_key: b.subrange(12 + n1 + n2, 12 + n1 + n2 + n3),
                            nonce: dec64(b.subrange(12 + n1 + n2 + n3, 20 + n1 + n2 + n3)),
                        },
                    )
                }
            }
        }
    }
}

/// The name list whose wire form is exactly `b`: `n` length-framed UTF-8
/// names, with no byte left over.
pub open spec fn dec_names(b: Seq<u8>, n: nat) -> Option<Seq<Seq<char>>>
    decreases n,
{
    if n == 0 {
        if b.len() == 0 {
            Some(Seq::empty())
        } else {
            None
        }
    } else if b.len() < 4 {
        None
    } else {
        let len = dec32(b.subrange(0, 4)) as int;
        if b.len() < 4 + len {
            None
        } else {
            let name_bytes = b.subrange(4, 4 + len);
            if !valid_utf8(name_bytes) {
                None
            } else {
                match dec_names(b.skip(4 + len), (n - 1) as nat) {
                    Some(rest) => Some(seq![decode_utf8(name_bytes)] + rest),
                    None => None,
                }
            }
        }
    }
}

/// The election call whose wire form is exactly `b`.
pub open spec fn dec_election_call(b: Seq<u8>) -> Option<ElectionCallV> {
    if b.len() < 1 {
        None
    } else {
        let rest = b.drop_first();
        if b[0] == 0 {
            if rest.len() < 4 {
                None
            } else {
                match dec_names(rest.skip(4), dec32(rest.subrange(0, 4)) as nat) {
                    Some(names) => Some(ElectionCallV::SetCandidates { names }),
                    None => None,
                }
            }
        } else if b[0] == 1 {
            if rest.len() < 4 {
                None
            } else {
                let n = dec32(rest.subrange(0, 4)) as int;
                if rest.len() != 4 + n {
                    None
                } else {
                    Some(ElectionCallV::AddVoter(rest.subrange(4, 4 + n)))
                }
            }
        } else if b[0] == 2 {
            if rest.len() != 8 {
                None
            } else {
                Some(ElectionCallV::Vote(dec64(rest)))
            }
        } else if b[0] == 3 {
            if rest.len() != 0 {
                None
            } else {
                Some(ElectionCallV::FreezeElection)
            }
        } else {
            None
        }
    }
}

/// The value-setter call whose wire form is exactly `b`.
pub open spec fn dec_value_setter_call(b: Seq<u8>) -> Option<ValueSetterCall> {
    if b.len() != 5 || b[0] != 0 {
        None
    } else {
        Some(ValueSetterCall::DoSetValue(SetValue { new_value: dec32(b.subrange(1, 5)) }))
    }
}

/// The dispatched call whose wire form is exactly `b`: the module
/// discriminant selects which module's decoder reads the payload.
pub open spec fn dec_runtime_call(b: Seq<u8>) -> Option<RuntimeCallV> {
    if b.len() < 1 {
        None
    } else if b[0] == 0 {
        match dec_election_call(b.drop_first()) {
            Some(c) => Some(RuntimeCallV::Election(c)),
            None => None,
        }
    } else if b[0] == 1 {
        match dec_value_setter_call(b.drop_first()) {
            Some(c) => Some(RuntimeCallV::ValueSetter(c)),
            None => None,
        }
    } else {
        None
    }
}

/// The dispatched query whose wire form is exactly `b`: the module
/// discriminant, then the module's own query tag.
pub open spec fn dec_runtime_query(b: Seq<u8>) -> Option<RuntimeQuery> {
    if b.len() != 2 || b[1] != 0 {
        None
    } else if b[0] == 0 {
        Some(RuntimeQuery::Election(ElectionQuery::GetResult))
    } else if b[0] == 1 {
        Some(RuntimeQuery::ValueSetter(ValueSetterQuery::GetValue))
    } else {
        None
    }
}

/// Reads the dispatched query whose wire form is exactly `data`, as
/// `dec_runtime_query` describes.
pub fn decode_runtime_query(data: &Vec<u8>) -> (r: Option<RuntimeQuery>)
    ensures
        r matches Some(q) ==> dec_runtime_query(data@) == Some(q),
        r is None ==> dec_runtime_query(data@) is None,
{
    if data.len() != 2 {
        return None;
    }
    if data[1] != 0 {
        return None;
    }
    if data[0] == 0 {
        Some(RuntimeQuery::Election(ElectionQuery::GetResult))
    } else if data[0] == 1 {
        Some(RuntimeQuery::ValueSetter(ValueSetterQuery::GetValue))
    } else {
        None
    }
}

/// Decoding inverts encoding for a dispatched query: the module is
/// identified and the query reconstructed exactly.
pub proof fn lemma_runtime_query_round_trip(q: RuntimeQuery)
    ensures
        dec_runtime_query(enc_runtime_query(q)) == Some(q),
{
    let b = enc_runtime_query(q);
    match q {
        RuntimeQuery::Election(eq) => {
            assert(b =~= seq![0u8, 0u8]);
        },
        RuntimeQuery::ValueSetter(vq) => {
            assert(b =~= seq![1u8, 0u8]);
        },
    }
}

/// Relies on `String::from_utf8`: it returns the string holding exactly
/// the given bytes when they are valid UTF-8, and fails exactly otherwise.
#[verifier::external_body]
fn string_from_utf8(bytes: Vec<u8>) -> (r: Option<String>)
    ensures
        r is Some <==> valid_utf8(bytes@),
        r matches Some(s) ==> s@ == decode_utf8(bytes@),
{
    String::from_utf8(bytes).ok()
}

/// Reads the transaction whose wire form is exactly `data`, as `dec_tx`
/// describes; yields nothing on any malformed or leftover byte.
pub fn decode_transaction(data: &Vec<u8>) -> (r: Option<Transaction>)
    ensures
        r matches Some(tx) ==> dec_tx(data@) == Some(tx@),
        r is None ==> dec_tx(data@) is None,
{
    let len = data.len();
    if len < 4 {
        return None;
    }
    let n1 = read_u32_le(data, 0) as usize;
    if len < 8 || len - 8 < n1 {
        return None;
    }
    let signature = read_range(data, 4, n1);
    let n2 = read_u32_le(data, 4 + n1) as usize;
    let rem = len - 8 - n1;
    if rem < 4 || rem - 4 < n2 {
        return None;
    }
    let runtime_msg = read_range(data, 8 + n1, n2);
    let n3 = read_u32_le(data, 8 + n1 + n2) as usize;
    let rem2 = len - 12 - n1 - n2;
    if rem2 < n3 || rem2 - n3 != 8 {
        return None;
    }
    let key_bytes = read_range(data, 12 + n1 + n2, n3);
    let nonce = read_u64_le(data, 12 + n1 + n2 + n3);
    Some(
        Transaction {
            signature,
            runtime_msg,
            pub_key: Identity { bytes: key_bytes },
            nonce,
        },
    )
}

/// Reads `n` length-framed UTF-8 names from `data` starting at `pos`, as
/// `dec_names` describes over the rest of the buffer.
fn decode_names(data: &Vec<u8>, pos: usize, n: u32) -> (r: Option<Vec<String>>)
    requires
        pos <= data@.len(),
    ensures
        r matches Some(v) ==> dec_names(data@.skip(pos as int), n as nat) == Some(v.deep_view()),
        r is None ==> dec_names(data@.skip(pos as int), n as nat) is None,
    decreases n,
{
    let ghost b = data@.skip(pos as int);
    let len = data.len();
    if n == 0 {
        if pos == len {
            let v: Vec<String> = Vec::new();
            assert(v.deep_view() =~= Seq::<Seq<char>>::empty());
            Some(v)
        } else {
            None
        }
    } else if len - pos < 4 {
        None
    } else {
        let name_len = read_u32_le(data, pos) as usize;
        proof {
            assert(b.subrange(0, 4) =~= data@.subrange(pos as int, pos + 4));
        }
        if len - pos - 4 < name_len {
            return None;
        }
        let name_bytes = read_range(data, pos + 4, name_len);
        proof {
            assert(b.subrange(4, 4 + name_len as int) =~= data@.subrange(
                pos + 4,
                pos + 4 + name_len,
            ));
        }
        let ghost name_view = decode_utf8(b.subrange(4, 4 + name_len as int));
        match string_from_utf8(name_bytes) {
            None => None,
            Some(s) => {
                proof {
                    assert(b.skip(4 + name_len as int) =~= data@.skip(pos + 4 + name_len));
                }
                match decode_names(data, pos + 4 + name_len, n - 1) {
                    None => None,
                    Some(rest) => {
                        let ghost rest_view = rest.deep_view();
                        let mut names = rest;
                        names.insert(0, s);
                        assert(names.deep_view() =~= seq![name_view] + rest_view);
                        Some(names)
                    },
                }
            },
        }
    }
}

/// Reads the election call whose wire form starts at `pos` and runs to the
/// end of `data`, as `dec_election_call` describes.
fn decode_election_payload(data: &Vec<u8>, pos: usize) -> (r: Option<ElectionCall>)
    requires
        pos <= data@.len(),
    ensures
        r matches Some(c) ==> dec_election_call(data@.skip(pos as int)) == Some(c@),
        r is None ==> dec_election_call(data@.skip(pos as int)) is None,
{
    let ghost b = data@.skip(pos as int);
    let len = data.len();
    if len - pos < 1 {
        return None;
    }
    let tag = data[pos];
    proof {
        assert(b[0] == data@[pos as int]);
        assert(b.drop_first() =~= data@.skip(pos + 1));
    }
    if tag == 0 {
        if len - pos - 1 < 4 {
            return None;
        }
        let count = read_u32_le(data, pos + 1);
        proof {
            assert(b.drop_first().subrange(0, 4) =~= data@.subrange(pos + 1, pos + 5));
            assert(b.drop_first().skip(4) =~= data@.skip(pos + 5));
        }
        match decode_names(data, pos + 5, count) {
            None => None,
            Some(names) => Some(ElectionCall::SetCandidates { names }),
        }
    } else if tag == 1 {
        if len - pos - 1 < 4 {
            return None;
        }
        let n = read_u32_le(data, pos + 1) as usize;
        proof {
            assert(b.drop_first().subrange(0, 4) =~= data@.subrange(pos + 1, pos + 5));
        }
        if len - pos - 5 != n {
            return None;
        }
        let bytes = read_range(data, pos + 5, n);
        proof {
            assert(b.drop_first().subrange(4, 4 + n as int) =~= data@.subrange(
                pos + 5,
                pos + 5 + n,
            ));
        }
        Some(ElectionCall::AddVoter(Identity { bytes }))
    } else if tag == 2 {
        if len - pos - 1 != 8 {
            return None;
        }
        let index = read_u64_le(data, pos + 1);
        proof {
            assert(b.drop_first() =~= data@.subrange(pos + 1, pos + 9));
        }
        Some(ElectionCall::Vote(index))
    } else if tag == 3 {
        if len - pos - 1 != 0 {
            return None;
        }
        Some(ElectionCall::FreezeElection)
    } else {
        None
    }
}

/// Reads the value-setter call whose wire form starts at `pos` and runs to
/// the end of `data`, as `dec_value_setter_call` describes.
fn decode_value_setter_payload(data: &Vec<u8>, pos: usize) -> (r: Option<ValueSetterCall>)
    requires
        pos <= data@.len(),
    ensures
        r matches Some(c) ==> dec_value_setter_call(data@.skip(pos as int)) == Some(c),
        r is None ==> dec_value_setter_call(data@.skip(pos as int)) is None,
{
    let ghost b = data@.skip(pos as int);
    let len = data.len();
    if len - pos != 5 {
        return None;
    }
    if data[pos] != 0 {
        assert(b[0] != 0);
        return None;
    }
    let new_value = read_u32_le(data, pos + 1);
    proof {
        assert(b[0] == 0);
        assert(b.subrange(1, 5) =~= data@.subrange(pos + 1, pos + 5));
    }
    Some(ValueSetterCall::DoSetValue(SetValue { new_value }))
}

/// Reads the dispatched call whose wire form is exactly `data`: the module
/// discriminant selects the module, whose own decoder reads the payload.
pub fn decode_runtime_call(data: &Vec<u8>) -> (r: Option<RuntimeCall>)
    ensures
        r matches Some(rc) ==> dec_runtime_call(data@) == Some(rc@),
        r is None ==> dec_runtime_call(data@) is None,
{
    if data.len() < 1 {
        return None;
    }
    let tag = data[0];
    proof {
        assert(data@.skip(1) =~= data@.drop_first());
    }
    if tag == 0 {
        match decode_election_payload(data, 1) {
            Some(c) => Some(RuntimeCall::Election(c)),
            None => None,
        }
    } else if tag == 1 {
        match decode_value_setter_payload(data, 1) {
            Some(c) => Some(RuntimeCall::ValueSetter(c)),
            None => None,
        }
    } else {
        None
    }
}

/// Decoding inverts encoding for a name list whose names fit their length
/// fields.
pub proof fn lemma_names_round_trip(names: Seq<Seq<char>>)
    requires
        forall|i: int| 0 <= i < names.len() ==> (#[trigger] encode_utf8(names[i])).len()
            <= u32::MAX,
    ensures
        dec_names(enc_names(names), names.len()) == Some(names),
    decreases names.len(),
{
    if names.len() == 0 {
    } else {
        let first_enc = encode_utf8(names.first());
        let b = enc_names(names);
        let len = first_enc.len() as int;
        assert(b =~= le32(first_enc.len() as u32) + first_enc + enc_names(names.drop_first()));
        assert(b.subrange(0, 4) =~= le32(first_enc.len() as u32));
        lemma_le32_dec32(first_enc.len() as u32);
        assert(b.subrange(4, 4 + len) =~= first_enc);
        encode_utf8_valid_utf8(names.first());
        encode_utf8_decode_utf8(names.first());
        assert(b.skip(4 + len) =~= enc_names(names.drop_first()));
        assert(forall|i: int| 0 <= i < names.drop_first().len() ==> (#[trigger] encode_utf8(
            names.drop_first()[i],
        )).len() <= u32::MAX);
        lemma_names_round_trip(names.drop_first());
        assert(seq![names.first()] + names.drop_first() =~= names);
    }
}

/// Decoding inverts encoding for an election call that fits its length
/// fields.
pub proof fn lemma_election_call_round_trip(c: ElectionCallV)
    requires
        wf_election_call(c),
    ensures
        dec_election_call(enc_election_call(c)) == Some(c),
{
    let b = enc_election_call(c);
    match c {
        ElectionCallV::SetCandidates { names } => {
            let rest = b.drop_first();
            assert(rest =~= le32(names.len() as u32) + enc_names(names));
            assert(rest.subrange(0, 4) =~= le32(names.len() as u32));
            lemma_le32_dec32(names.len() as u32);
            assert(rest.skip(4) =~= enc_names(names));
            lemma_names_round_trip(names);
        },
        ElectionCallV::AddVoter(id) => {
            let rest = b.drop_first();
            assert(rest =~= le32(id.len() as u32) + id);
            assert(rest.subrange(0, 4) =~= le32(id.len() as u32));
            lemma_le32_dec32(id.len() as u32);
            assert(rest.subrange(4, 4 + id.len() as int) =~= id);
        },
        ElectionCallV::Vote(index) => {
            assert(b.drop_first() =~= le64(index));
            lemma_le64_dec64(index);
        },
        ElectionCallV::FreezeElection => {
            assert(b.drop_first().len() == 0);
        },
    }
}

/// Decoding inverts encoding for a value-setter call.
pub proof fn lemma_value_setter_call_round_trip(c: ValueSetterCall)
    ensures
        dec_value_setter_call(enc_value_setter_call(c)) == Some(c),
{
    match c {
        ValueSetterCall::DoSetValue(v) => {
            let b = enc_value_setter_call(c);
            assert(b.subrange(1, 5) =~= le32(v.new_value));
            lemma_le32_dec32(v.new_value);
        },
    }
}

/// Decoding inverts encoding for any dispatched call that fits its length
/// fields: the module is identified and the call reconstructed exactly.
pub proof fn lemma_runtime_call_round_trip(rc: RuntimeCallV)
    requires
        wf_runtime_call(rc),
    ensures
        dec_runtime_call(enc_runtime_call(rc)) == Some(rc),
{
    let b = enc_runtime_call(rc);
    match rc {
        RuntimeCallV::Election(c) => {
            assert(b.drop_first() =~= enc_election_call(c));
            lemma_election_call_round_trip(c);
        },
        RuntimeCallV::ValueSetter(c) => {
            assert(b.drop_first() =~= enc_value_setter_call(c));
            lemma_value_setter_call_round_trip(c);
        },
    }
}

/// Decoding inverts encoding for any transaction whose fields fit their
/// length fields.
pub proof fn lemma_tx_round_trip(t: TransactionV)
    requires
        wf_tx(t),
    ensures
        dec_tx(enc_tx(t)) == Some(t),
{
    let b = enc_tx(t);
    let n1 = t.signature.len() as int;
    let n2 = t.runtime_msg.len() as int;
    let n3 = t.pub_key.len() as int;
    assert(b.len() == 20 + n1 + n2 + n3);
    assert(b.subrange(0, 4) =~= le32(t.signature.len() as u32));
    lemma_le32_dec32(t.signature.len() as u32);
    assert(b.subrange(4, 4 + n1) =~= t.signature);
    assert(b.subrange(4 + n1, 8 + n1) =~= le32(t.runtime_msg.len() as u32));
    lemma_le32_dec32(t.runtime_msg.len() as u32);
    assert(b.subrange(8 + n1, 8 + n1 + n2) =~= t.runtime_msg);
    assert(b.subrange(8 + n1 + n2, 12 + n1 + n2) =~= le32(t.pub_key.len() as u32));
    lemma_le32_dec32(t.pub_key.len() as u32);
    assert(b.subrange(12 + n1 + n2, 12 + n1 + n2 + n3) =~= t.pub_key);
    assert(b.subrange(12 + n1 + n2 + n3, 20 + n1 + n2 + n3) =~= le64(t.nonce));
    lemma_le64_dec64(t.nonce);
}

/// Call encoding is lossless: two well-formed dispatched calls with the
/// same wire form are the same call.
pub proof fn lemma_enc_runtime_call_injective(rc1: RuntimeCallV, rc2: RuntimeCallV)
    requires
        wf_runtime_call(rc1),
        wf_runtime_call(rc2),
        enc_runtime_call(rc1) == enc_runtime_call(rc2),
    ensures
        rc1 == rc2,
{
    lemma_runtime_call_round_trip(rc1);
    lemma_runtime_call_round_trip(rc2);
}

/// Envelope serialization is lossless: two well-formed transactions with
/// the same wire form are the same transaction.
pub proof fn lemma_enc_tx_injective(t1: TransactionV, t2: TransactionV)
    requires
        wf_tx(t1),
        wf_tx(t2),
        enc_tx(t1) == enc_tx(t2),
    ensures
        t1 == t2,
{
    lemma_tx_round_trip(t1);
    lemma_tx_round_trip(t2);
}

} // verus!
