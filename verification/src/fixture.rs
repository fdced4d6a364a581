//! The fixture generator: two ordered batches of serialized transactions
//! that exercise the election module's full lifecycle and the value-setter
//! module's update path, plus the standalone query payloads.  The batches
//! are fixed data: every byte of the output is pinned by `fixture_batch`.

use crate::codec::enc_bytes;
use crate::decode::{
    dec_runtime_call, dec_tx, lemma_runtime_call_round_trip, lemma_tx_round_trip,
};
use crate::dispatch::{
    enc_runtime_call, enc_runtime_query, encode_election_call, encode_election_query,
    encode_value_setter_call, encode_value_setter_query, wf_runtime_call, RuntimeCallV,
    RuntimeQuery,
};
use crate::election::{
    enc_names, wf_election_call, ElectionCall, ElectionCallV, ElectionQuery,
};
use crate::identity::{identity_of_known_label, lemma_encode_utf8_len, Identity};
use crate::tx::{enc_tx, wf_tx, RawTx, Transaction, TransactionV};
use crate::value_setter::{SetValue, ValueSetterCall, ValueSetterQuery};
use vstd::pervasive::unreached;
use vstd::prelude::*;
use vstd::utf8::encode_utf8;

verus! {

/// The identity bytes of the admin, who signs every call but the votes.
pub open spec fn admin_id() -> Seq<u8> {
    encode_utf8("admin"@)
}

/// The label of voter `k`, for `0 <= k < 3`.
pub open spec fn voter_label(k: int) -> Seq<char> {
    if k == 0 {
        "voter_1"@
    } else if k == 1 {
        "voter_2"@
    } else {
        "voter_3"@
    }
}

/// The identity bytes of voter `k`.
pub open spec fn voter_id(k: int) -> Seq<u8> {
    encode_utf8(voter_label(k))
}

/// The two candidate names installed by the admin.
pub open spec fn candidate_names() -> Seq<Seq<char>> {
    seq!["candidate_1"@, "candidate_2"@]
}

/// The election call issued at step `i` of the lifecycle, for `0 <= i < 8`:
/// the candidate list first, then for each voter in order a registration
/// followed by that voter's vote for candidate one, and last the freeze.
pub open spec fn election_call_at(i: int) -> ElectionCallV {
    if i == 0 {
        ElectionCallV::SetCandidates { names: candidate_names() }
    } else if i == 7 {
        ElectionCallV::FreezeElection
    } else if (i - 1) % 2 == 0 {
        ElectionCallV::AddVoter(voter_id((i - 1) / 2))
    } else {
        ElectionCallV::Vote(1)
    }
}

/// The signer of step `i`: each voter signs their own vote; the admin signs
/// everything else.
pub open spec fn election_signer_at(i: int) -> Seq<u8> {
    if 1 <= i <= 6 && (i - 1) % 2 == 1 {
        voter_id((i - 2) / 2)
    } else {
        admin_id()
    }
}

/// The envelope around one fixture call: an empty placeholder signature and
/// a nonce fixed at zero.
pub open spec fn fixture_tx(rc: RuntimeCallV, signer: Seq<u8>) -> TransactionV {
    TransactionV {
        signature: Seq::empty(),
        runtime_msg: enc_runtime_call(rc),
        pub_key: signer,
        nonce: 0,
    }
}

/// The transaction of election step `i`.
pub open spec fn election_tx_at(i: int) -> TransactionV {
    fixture_tx(RuntimeCallV::Election(election_call_at(i)), election_signer_at(i))
}

/// The eight serialized election transactions, in lifecycle order.
pub open spec fn election_batch() -> Seq<Seq<u8>> {
    Seq::new(8, |i: int| enc_tx(election_tx_at(i)))
}

/// The value stored by value-setter step `i`: first 99, then 33.
pub open spec fn set_value_at(i: int) -> u32 {
    if i == 0 {
        99
    } else {
        33
    }
}

/// The value-setter call issued at step `i`, for `0 <= i < 2`.
pub open spec fn value_setter_call_at(i: int) -> ValueSetterCall {
    ValueSetterCall::DoSetValue(SetValue { new_value: set_value_at(i) })
}

/// The transaction of value-setter step `i`; the admin signs both.
pub open spec fn value_setter_tx_at(i: int) -> TransactionV {
    fixture_tx(RuntimeCallV::ValueSetter(value_setter_call_at(i)), admin_id())
}

/// The two serialized value-setter transactions, in order.
pub open spec fn value_setter_batch() -> Seq<Seq<u8>> {
    Seq::new(2, |i: int| enc_tx(value_setter_tx_at(i)))
}

/// All ten raw transactions: the election batch, then the value-setter
/// batch.
pub open spec fn fixture_batch() -> Seq<Seq<u8>> {
    election_batch() + value_setter_batch()
}

/// The runtime call of fixture step `i`: the election lifecycle step for
/// `i < 8`, the value-setter update for `i` in 8..10.
pub open spec fn fixture_call_at(i: int) -> RuntimeCallV {
    if i < 8 {
        RuntimeCallV::Election(election_call_at(i))
    } else {
        RuntimeCallV::ValueSetter(value_setter_call_at(i - 8))
    }
}

/// The envelope of fixture step `i`.
pub open spec fn fixture_tx_at(i: int) -> TransactionV {
    fixture_tx(
        fixture_call_at(i),
        if i < 8 {
            election_signer_at(i)
        } else {
            admin_id()
        },
    )
}

/// The fixture's labels are short, so every identity and every encoded call
/// fits the wire format's length fields with room to spare.
proof fn lemma_fixture_label_bounds()
    ensures
        admin_id().len() <= 32,
        voter_id(0).len() <= 32,
        voter_id(1).len() <= 32,
        voter_id(2).len() <= 32,
        encode_utf8("candidate_1"@).len() <= 64,
        encode_utf8("candidate_2"@).len() <= 64,
{
    reveal_strlit("admin");
    reveal_strlit("voter_1");
    reveal_strlit("voter_2");
    reveal_strlit("voter_3");
    reveal_strlit("candidate_1");
    reveal_strlit("candidate_2");
    lemma_encode_utf8_len("admin"@);
    lemma_encode_utf8_len("voter_1"@);
    lemma_encode_utf8_len("voter_2"@);
    lemma_encode_utf8_len("voter_3"@);
    lemma_encode_utf8_len("candidate_1"@);
    lemma_encode_utf8_len("candidate_2"@);
}

/// Builds and serializes the envelope around one encoded runtime message.
fn raw_tx_of(msg: Vec<u8>, signer: Identity) -> (r: RawTx)
    requires
        msg@.len() <= u32::MAX,
        signer@.len() <= u32::MAX,
    ensures
        r@ == enc_tx(
            TransactionV {
                signature: Seq::empty(),
                runtime_msg: msg@,
                pub_key: signer@,
                nonce: 0,
            },
        ),
{
    let ghost expected = TransactionV {
        signature: Seq::empty(),
        runtime_msg: msg@,
        pub_key: signer@,
        nonce: 0,
    };
    let tx = Transaction::new(msg, signer);
    assert(tx@ == expected);
    match tx.serialize() {
        Ok(data) => RawTx { data },
        Err(_) => unreached(),
    }
}

/// The generators of the two call batches.
pub struct CallGenerator {}

impl CallGenerator {
    /// The election batch: the full lifecycle of one election, serialized,
    /// in the exact order `election_batch` describes.
    pub fn election_call_messages() -> (r: Vec<RawTx>)
        ensures
            r@.len() == 8,
            forall|i: int| 0 <= i < 8 ==> (#[trigger] r@[i])@ == election_batch()[i],
    {
        proof {
            lemma_fixture_label_bounds();
            lemma_fixture_call_bounds();
        }
        let mut out: Vec<RawTx> = Vec::new();

        // The admin installs the candidate list.
        let mut names: Vec<String> = Vec::new();
        names.push("candidate_1".to_owned());
        names.push("candidate_2".to_owned());
        let set_candidates = ElectionCall::SetCandidates { names };
        proof {
            assert(set_candidates@->SetCandidates_names =~= candidate_names());
            assert(set_candidates@ == election_call_at(0));
        }
        let msg = match encode_election_call(&set_candidates) {
            Ok(b) => b,
            Err(_) => unreached(),
        };
        out.push(raw_tx_of(msg, identity_of_known_label("admin")));
        assert(out@[0]@ == election_batch()[0]);

        // Each voter is registered by the admin, then casts their vote.
        let voter_1 = ElectionCall::AddVoter(identity_of_known_label("voter_1"));
        let msg = match encode_election_call(&voter_1) {
            Ok(b) => b,
            Err(_) => unreached(),
        };
        out.push(raw_tx_of(msg, identity_of_known_label("admin")));
        assert(out@[1]@ == election_batch()[1]);

        let msg = match encode_election_call(&ElectionCall::Vote(1)) {
            Ok(b) => b,
            Err(_) => unreached(),
        };
        out.push(raw_tx_of(msg, identity_of_known_label("voter_1")));
        assert(out@[2]@ == election_batch()[2]);

        let voter_2 = ElectionCall::AddVoter(identity_of_known_label("voter_2"));
        let msg = match encode_election_call(&voter_2) {
            Ok(b) => b,
            Err(_) => unreached(),
        };
        out.push(raw_tx_of(msg, identity_of_known_label("admin")));
        assert(out@[3]@ == election_batch()[3]);

        let msg = match encode_election_call(&ElectionCall::Vote(1)) {
            Ok(b) => b,
            Err(_) => unreached(),
        };
        out.push(raw_tx_of(msg, identity_of_known_label("voter_2")));
        assert(out@[4]@ == election_batch()[4]);

        let voter_3 = ElectionCall::AddVoter(identity_of_known_label("voter_3"));
        let msg = match encode_election_call(&voter_3) {
            Ok(b) => b,
            Err(_) => unreached(),
        };
        out.push(raw_tx_of(msg, identity_of_known_label("admin")));
        assert(out@[5]@ == election_batch()[5]);

        let msg = match encode_election_call(&ElectionCall::Vote(1)) {
            Ok(b) => b,
            Err(_) => unreached(),
        };
        out.push(raw_tx_of(msg, identity_of_known_label("voter_3")));
        assert(out@[6]@ == election_batch()[6]);

        // The admin closes the election.
        let msg = match encode_election_call(&ElectionCall::FreezeElection) {
            Ok(b) => b,
            Err(_) => unreached(),
        };
        out.push(raw_tx_of(msg, identity_of_known_label("admin")));
        assert(out@[7]@ == election_batch()[7]);

        out
    }

    /// The value-setter batch: two updates by the admin, 99 then 33, so a
    /// runtime that simply overwrites must be left holding 33.
    pub fn value_setter_call_messages() -> (r: Vec<RawTx>)
        ensures
            r@.len() == 2,
            forall|i: int| 0 <= i < 2 ==> (#[trigger] r@[i])@ == value_setter_batch()[i],
    {
        proof {
            lemma_fixture_label_bounds();
        }
        let mut out: Vec<RawTx> = Vec::new();

        let msg = encode_value_setter_call(
            &ValueSetterCall::DoSetValue(SetValue { new_value: 99 }),
        );
        out.push(raw_tx_of(msg, identity_of_known_label("admin")));
        assert(out@[0]@ == value_setter_batch()[0]);

        let msg = encode_value_setter_call(
            &ValueSetterCall::DoSetValue(SetValue { new_value: 33 }),
        );
        out.push(raw_tx_of(msg, identity_of_known_label("admin")));
        assert(out@[1]@ == value_setter_batch()[1]);

        out
    }
}

/// Produces the full fixture: exactly ten serialized transactions, the
/// eight-step election batch followed by the two value-setter updates, in
/// the fixed order `fixture_batch` describes.  The output is a function of
/// nothing: two calls yield byte-identical sequences.
pub fn simulate_da() -> (r: Vec<RawTx>)
    ensures
        r@.len() == 10,
        forall|i: int| 0 <= i < 10 ==> (#[trigger] r@[i])@ == fixture_batch()[i],
{
    let mut messages = CallGenerator::election_call_messages();
    let mut value_setter_messages = CallGenerator::value_setter_call_messages();
    messages.append(&mut value_setter_messages);
    messages
}

/// The generators of the standalone query payloads.
pub struct QueryGenerator {}

impl QueryGenerator {
    /// The dispatch-framed election result query.
    pub fn generate_query_election_message() -> (r: Vec<u8>)
        ensures
            r@ == enc_runtime_query(RuntimeQuery::Election(ElectionQuery::GetResult)),
    {
        encode_election_query(&ElectionQuery::GetResult)
    }

    /// The dispatch-framed value-setter read query.
    pub fn generate_query_value_setter_message() -> (r: Vec<u8>)
        ensures
            r@ == enc_runtime_query(RuntimeQuery::ValueSetter(ValueSetterQuery::GetValue)),
    {
        encode_value_setter_query(&ValueSetterQuery::GetValue)
    }
}

/// Every fixture call is well formed and its dispatch encoding is short,
/// so each envelope fits the wire format's length fields.
proof fn lemma_fixture_call_bounds()
    ensures
        admin_id().len() <= 32,
        forall|k: int| 0 <= k < 3 ==> (#[trigger] voter_id(k)).len() <= 32,
        forall|i: int| 0 <= i < 8 ==> (#[trigger] election_signer_at(i)).len() <= 32,
        forall|i: int| 0 <= i < 8 ==> wf_election_call(#[trigger] election_call_at(i)),
        forall|i: int| 0 <= i < 8 ==> (#[trigger] enc_runtime_call(
            RuntimeCallV::Election(election_call_at(i)),
        )).len() <= 300,
        forall|i: int| 0 <= i < 2 ==> (#[trigger] enc_runtime_call(
            RuntimeCallV::ValueSetter(value_setter_call_at(i)),
        )).len() <= 8,
{
    lemma_fixture_label_bounds();
    assert(candidate_names().drop_first() =~= seq!["candidate_2"@]);
    assert(seq!["candidate_2"@].drop_first() =~= Seq::<Seq<char>>::empty());
    assert(candidate_names().first() == "candidate_1"@);
    assert(candidate_names()[0] == "candidate_1"@);
    assert(candidate_names()[1] == "candidate_2"@);
    assert(seq!["candidate_2"@].first() == "candidate_2"@);
    assert(enc_names(Seq::<Seq<char>>::empty()) == Seq::<u8>::empty());
    assert(enc_names(seq!["candidate_2"@]) =~= enc_bytes(encode_utf8("candidate_2"@)));
    assert(enc_names(candidate_names()) =~= enc_bytes(encode_utf8("candidate_1"@)) + enc_names(
        seq!["candidate_2"@],
    ));
    assert(enc_names(candidate_names()).len() <= 150);
    assert forall|k: int| 0 <= k < 3 implies (#[trigger] voter_id(k)).len() <= 32 by {
        if k == 0 {
        } else if k == 1 {
        } else {
        }
    };
    assert forall|i: int| 0 <= i < 8 implies (#[trigger] election_signer_at(i)).len() <= 32 by {
        if 1 <= i <= 6 && (i - 1) % 2 == 1 {
            assert(0 <= (i - 2) / 2 < 3);
        }
    };
    assert forall|i: int| 0 <= i < 8 implies wf_election_call(#[trigger] election_call_at(i)) by {
        if i == 0 {
            assert(forall|j: int| 0 <= j < candidate_names().len() ==> (#[trigger] encode_utf8(
                candidate_names()[j],
            )).len() <= u32::MAX);
        } else if i < 7 && (i - 1) % 2 == 0 {
            assert(0 <= (i - 1) / 2 < 3);
        }
    };
    assert forall|i: int| 0 <= i < 8 implies (#[trigger] enc_runtime_call(
        RuntimeCallV::Election(election_call_at(i)),
    )).len() <= 300 by {
        if i == 0 {
        } else if i < 7 && (i - 1) % 2 == 0 {
            assert(0 <= (i - 1) / 2 < 3);
        }
    };
}

/// Determinism: the generator's output is the fixed sequence
/// `fixture_batch`, so any two generated outputs are byte-identical.
pub proof fn lemma_simulate_da_deterministic(r1: Seq<Seq<u8>>, r2: Seq<Seq<u8>>)
    requires
        r1.len() == 10,
        forall|i: int| 0 <= i < 10 ==> #[trigger] r1[i] == fixture_batch()[i],
        r2.len() == 10,
        forall|i: int| 0 <= i < 10 ==> #[trigger] r2[i] == fixture_batch()[i],
    ensures
        r1 == r2,
{
    assert(r1 =~= r2);
}

/// Count invariant: the fixture is exactly ten transactions, the eight
/// election steps followed by the two value-setter steps, in that order.
pub proof fn lemma_fixture_counts()
    ensures
        election_batch().len() == 8,
        value_setter_batch().len() == 2,
        fixture_batch().len() == 10,
        forall|i: int| 0 <= i < 8 ==> #[trigger] fixture_batch()[i] == election_batch()[i],
        forall|i: int| 8 <= i < 10 ==> #[trigger] fixture_batch()[i] == value_setter_batch()[
            i - 8
        ],
{
}

/// Order invariant of the election batch: the candidate list comes first;
/// each voter's registration (odd steps) directly precedes that same
/// voter's vote (even steps), with the pairs in voter order; the freeze
/// closes the batch.
pub proof fn lemma_election_batch_order()
    ensures
        election_call_at(0) == (ElectionCallV::SetCandidates { names: candidate_names() }),
        forall|i: int| 1 <= i <= 6 && i % 2 == 1 ==> #[trigger] election_call_at(i)
            == ElectionCallV::AddVoter(voter_id((i - 1) / 2)),
        forall|i: int| 1 <= i <= 6 && i % 2 == 0 ==> #[trigger] election_call_at(i)
            == ElectionCallV::Vote(1) && election_signer_at(i) == voter_id((i - 2) / 2),
        election_call_at(7) == ElectionCallV::FreezeElection,
{
}

/// Round trip: fixture transaction `i` is the encoding of the envelope of
/// step `i`; decoding it restores that envelope exactly, and decoding the
/// envelope's runtime message identifies the target module and restores
/// the call of step `i`.
pub proof fn lemma_fixture_round_trip(i: int)
    requires
        0 <= i < 10,
    ensures
        fixture_batch()[i] == enc_tx(fixture_tx_at(i)),
        dec_tx(fixture_batch()[i]) == Some(fixture_tx_at(i)),
        fixture_tx_at(i).runtime_msg == enc_runtime_call(fixture_call_at(i)),
        dec_runtime_call(fixture_tx_at(i).runtime_msg) == Some(fixture_call_at(i)),
{
    lemma_fixture_call_bounds();
    if i < 8 {
        assert(fixture_batch()[i] == election_batch()[i]);
        assert(election_tx_at(i) == fixture_tx_at(i));
    } else {
        assert(fixture_batch()[i] == value_setter_batch()[i - 8]);
        assert(value_setter_tx_at(i - 8) == fixture_tx_at(i));
    }
    assert(wf_tx(fixture_tx_at(i)));
    lemma_tx_round_trip(fixture_tx_at(i));
    assert(wf_runtime_call(fixture_call_at(i)));
    lemma_runtime_call_round_trip(fixture_call_at(i));
}

/// Fixed fields: every fixture transaction carries an empty placeholder
/// signature and a nonce of zero.
pub proof fn lemma_fixture_fixed_fields(i: int)
    requires
        0 <= i < 10,
    ensures
        fixture_tx_at(i).signature == Seq::<u8>::empty(),
        fixture_tx_at(i).nonce == 0,
{
}

/// The last two fixture transactions are the value-setter updates: their
/// runtime messages decode to `DoSetValue { 99 }` then `DoSetValue { 33 }`,
/// in that order.
pub proof fn lemma_value_setter_updates_decode()
    ensures
        dec_runtime_call(fixture_tx_at(8).runtime_msg) == Some(
            RuntimeCallV::ValueSetter(ValueSetterCall::DoSetValue(SetValue { new_value: 99u32 })),
        ),
        dec_runtime_call(fixture_tx_at(9).runtime_msg) == Some(
            RuntimeCallV::ValueSetter(ValueSetterCall::DoSetValue(SetValue { new_value: 33u32 })),
        ),
{
    lemma_fixture_round_trip(8);
    lemma_fixture_round_trip(9);
}

} // verus!
