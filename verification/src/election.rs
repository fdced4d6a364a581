//! The election module's message set and its wire format: the calls of a
//! full election lifecycle (install candidates, register voters, vote,
//! freeze) and the read-only result query.

use crate::codec::{enc_bytes, le32, le64, write_len_prefixed, write_u32_le, write_u64_le};
use crate::errors::EncodingError;
use crate::identity::Identity;
use vstd::prelude::*;
use vstd::utf8::encode_utf8;

verus! {

/// A state-changing instruction for the election module.
#[derive(Clone, PartialEq, Eq, Debug)]
pub enum ElectionCall {
    /// Install the candidate list; issued once by the admin before any vote.
    SetCandidates { names: Vec<String> },
    /// Allow the given identity to vote.
    AddVoter(Identity),
    /// Cast a vote for the candidate with the given index.
    Vote(u64),
    /// Close the election; no further calls are accepted after it.
    FreezeElection,
}

/// The mathematical value of an `ElectionCall`: names as character
/// sequences, the voter identity as its bytes.
pub enum ElectionCallV {
    SetCandidates { names: Seq<Seq<char>> },
    AddVoter(Seq<u8>),
    Vote(u64),
    FreezeElection,
}

impl View for ElectionCall {
    type V = ElectionCallV;

    open spec fn view(&self) -> ElectionCallV {
        match self {
            ElectionCall::SetCandidates { names } => ElectionCallV::SetCandidates {
                names: names.deep_view(),
            },
            ElectionCall::AddVoter(id) => ElectionCallV::AddVoter(id@),
            ElectionCall::Vote(index) => ElectionCallV::Vote(*index),
            ElectionCall::FreezeElection => ElectionCallV::FreezeElection,
        }
    }
}

/// A read-only query for the election module.
#[derive(Clone, Copy, PartialEq, Eq, Structural, Debug)]
pub enum ElectionQuery {
    /// Read the election's outcome.
    GetResult,
}

/// The concatenation of the length-framed UTF-8 forms of `names`, in order.
pub open spec fn enc_names(names: Seq<Seq<char>>) -> Seq<u8>
    decreases names.len(),
{
    if names.len() == 0 {
        Seq::empty()
    } else {
        enc_bytes(encode_utf8(names.first())) + enc_names(names.drop_first())
    }
}

/// Appending one more name extends the encoded list on the right.
pub proof fn lemma_enc_names_push(names: Seq<Seq<char>>, name: Seq<char>)
    ensures
        enc_names(names.push(name)) == enc_names(names) + enc_bytes(encode_utf8(name)),
    decreases names.len(),
{
    let whole = names.push(name);
    if names.len() == 0 {
        assert(whole.first() == name);
        assert(whole.drop_first() =~= Seq::<Seq<char>>::empty());
        assert(enc_names(whole.drop_first()) == Seq::<u8>::empty());
        assert(enc_names(whole) =~= enc_names(names) + enc_bytes(encode_utf8(name)));
    } else {
        assert(whole.drop_first() =~= names.drop_first().push(name));
        lemma_enc_names_push(names.drop_first(), name);
        assert(enc_names(whole) =~= enc_names(names) + enc_bytes(encode_utf8(name)));
    }
}

/// Wire form of an election call: a variant tag, then the variant's payload.
/// A candidate list carries its count, then each name length-framed.
pub open spec fn enc_election_call(c: ElectionCallV) -> Seq<u8> {
    match c {
        ElectionCallV::SetCandidates { names } => seq![0u8] + le32(names.len() as u32)
            + enc_names(names),
        ElectionCallV::AddVoter(id) => seq![1u8] + enc_bytes(id),
        ElectionCallV::Vote(index) => seq![2u8] + le64(index),
        ElectionCallV::FreezeElection => seq![3u8],
    }
}

/// The call's payload fits the wire format's length fields.
pub open spec fn wf_election_call(c: ElectionCallV) -> bool {
    match c {
        ElectionCallV::SetCandidates { names } => names.len() <= u32::MAX && forall|i: int|
            0 <= i < names.len() ==> (#[trigger] encode_utf8(names[i])).len() <= u32::MAX,
        ElectionCallV::AddVoter(id) => id.len() <= u32::MAX,
        ElectionCallV::Vote(_) => true,
        ElectionCallV::FreezeElection => true,
    }
}

/// Encodes `c` in the election module's canonical binary format.  Fails
/// exactly when a name list or a field is longer than the `u32` length
/// fields of the wire format admit; nothing is silently truncated.
pub fn encode_election_payload(c: &ElectionCall) -> (r: Result<Vec<u8>, EncodingError>)
    ensures
        r is Ok <==> wf_election_call(c@),
        r matches Ok(b) ==> b@ == enc_election_call(c@),
{
    match c {
        ElectionCall::SetCandidates { names } => {
            let ghost gnames = names.deep_view();
            if names.len() > u32::MAX as usize {
                return Err(EncodingError);
            }
            let mut out: Vec<u8> = Vec::new();
            out.push(0u8);
            write_u32_le(&mut out, names.len() as u32);
            assert(out@ =~= seq![0u8] + le32(gnames.len() as u32));
            let mut i: usize = 0;
            while i < names.len()
                invariant
                    i <= names@.len(),
                    gnames == names.deep_view(),
                    gnames.len() == names@.len(),
                    gnames.len() <= u32::MAX,
                    c@ == (ElectionCallV::SetCandidates { names: gnames }),
                    forall|j: int| 0 <= j < i ==> (#[trigger] encode_utf8(gnames[j])).len()
                        <= u32::MAX,
                    out@ == seq![0u8] + le32(gnames.len() as u32) + enc_names(
                        gnames.subrange(0, i as int),
                    ),
                decreases names@.len() - i,
            {
                let name: &String = &names[i];
                assert(name@ == gnames[i as int]);
                let name_bytes = name.as_str().as_bytes();
                if name_bytes.len() > u32::MAX as usize {
                    assert(encode_utf8(gnames[i as int]).len() > u32::MAX);
                    return Err(EncodingError);
                }
                write_len_prefixed(&mut out, name_bytes);
                proof {
                    lemma_enc_names_push(gnames.subrange(0, i as int), gnames[i as int]);
                    assert(gnames.subrange(0, i + 1) =~= gnames.subrange(0, i as int).push(
                        gnames[i as int],
                    ));
                    assert(out@ =~= seq![0u8] + le32(gnames.len() as u32) + enc_names(
                        gnames.subrange(0, i + 1),
                    ));
                }
                i = i + 1;
            }
            assert(gnames.subrange(0, gnames.len() as int) =~= gnames);
            Ok(out)
        },
        ElectionCall::AddVoter(id) => {
            if id.bytes.len() > u32::MAX as usize {
                return Err(EncodingError);
            }
            let mut out: Vec<u8> = Vec::new();
            out.push(1u8);
            write_len_prefixed(&mut out, id.bytes.as_slice());
            assert(out@ =~= seq![1u8] + enc_bytes(id@));
            Ok(out)
        },
        ElectionCall::Vote(index) => {
            let mut out: Vec<u8> = Vec::new();
            out.push(2u8);
            write_u64_le(&mut out, *index);
            assert(out@ =~= seq![2u8] + le64(*index));
            Ok(out)
        },
        ElectionCall::FreezeElection => {
            let mut out: Vec<u8> = Vec::new();
            out.push(3u8);
            assert(out@ =~= seq![3u8]);
            Ok(out)
        },
    }
}

/// Encodes `q` in the election module's canonical binary format.
pub open spec fn enc_election_query(q: ElectionQuery) -> Seq<u8> {
    match q {
        ElectionQuery::GetResult => seq![0u8],
    }
}

/// Encodes `q` in the election module's canonical binary format.
pub fn encode_election_query_payload(q: &ElectionQuery) -> (r: Vec<u8>)
    ensures
        r@ == enc_election_query(*q),
{
    let mut out: Vec<u8> = Vec::new();
    out.push(0u8);
    assert(out@ =~= seq![0u8]);
    out
}

} // verus!
