use da_fixtures::decode::{decode_runtime_call, decode_runtime_query, decode_transaction};
use da_fixtures::dispatch::RuntimeQuery;
use da_fixtures::dispatch::{encode_election_query, encode_value_setter_query, RuntimeCall};
use da_fixtures::election::{ElectionCall, ElectionQuery};
use da_fixtures::fixture::{simulate_da, CallGenerator, QueryGenerator};
use da_fixtures::identity::identity_from_label;
use da_fixtures::value_setter::{SetValue, ValueSetterCall, ValueSetterQuery};

#[test]
fn simulate_da_is_deterministic() {
    let first = simulate_da();
    let second = simulate_da();
    assert_eq!(first.len(), second.len());
    for (a, b) in first.iter().zip(second.iter()) {
        assert_eq!(a.data, b.data);
    }
}

#[test]
fn simulate_da_count_and_module_split() {
    let txs = simulate_da();
    assert_eq!(txs.len(), 10);
    for (i, raw) in txs.iter().enumerate() {
        let tx = decode_transaction(&raw.data).expect("every fixture transaction decodes");
        let call = decode_runtime_call(&tx.runtime_msg).expect("every runtime message decodes");
        if i < 8 {
            assert!(matches!(call, RuntimeCall::Election(_)), "transaction {i}");
        } else {
            assert!(matches!(call, RuntimeCall::ValueSetter(_)), "transaction {i}");
        }
    }
}

#[test]
fn election_batch_order() {
    let txs = CallGenerator::election_call_messages();
    assert_eq!(txs.len(), 8);
    let admin = identity_from_label("admin").unwrap();
    let voters = [
        identity_from_label("voter_1").unwrap(),
        identity_from_label("voter_2").unwrap(),
        identity_from_label("voter_3").unwrap(),
    ];

    let decoded: Vec<(ElectionCall, Vec<u8>)> = txs
        .iter()
        .map(|raw| {
            let tx = decode_transaction(&raw.data).unwrap();
            let call = decode_runtime_call(&tx.runtime_msg).unwrap();
            match call {
                RuntimeCall::Election(c) => (c, tx.pub_key.bytes),
                RuntimeCall::ValueSetter(_) => panic!("election batch holds no value-setter call"),
            }
        })
        .collect();

    // The candidate list comes first, issued by the admin.
    assert_eq!(
        decoded[0].0,
        ElectionCall::SetCandidates {
            names: vec!["candidate_1".to_owned(), "candidate_2".to_owned()],
        }
    );
    assert_eq!(decoded[0].1, admin.bytes);

    // Each voter is registered before that voter's own vote.
    for (k, voter) in voters.iter().enumerate() {
        let (register, register_signer) = &decoded[2 * k + 1];
        assert_eq!(*register, ElectionCall::AddVoter(voter.clone()));
        assert_eq!(*register_signer, admin.bytes);

        let (vote, vote_signer) = &decoded[2 * k + 2];
        assert_eq!(*vote, ElectionCall::Vote(1));
        assert_eq!(*vote_signer, voter.bytes);
    }

    // The freeze closes the batch.
    assert_eq!(decoded[7].0, ElectionCall::FreezeElection);
    assert_eq!(decoded[7].1, admin.bytes);
}

#[test]
fn every_transaction_has_fixed_fields() {
    for raw in simulate_da() {
        let tx = decode_transaction(&raw.data).unwrap();
        assert_eq!(tx.nonce, 0);
        assert!(tx.signature.is_empty());
    }
}

#[test]
fn value_setter_batch_holds_final_updates() {
    let txs = simulate_da();
    let expected = [99u32, 33u32];
    for (i, raw) in txs[8..].iter().enumerate() {
        let tx = decode_transaction(&raw.data).unwrap();
        match decode_runtime_call(&tx.runtime_msg).unwrap() {
            RuntimeCall::ValueSetter(ValueSetterCall::DoSetValue(SetValue { new_value })) => {
                assert_eq!(new_value, expected[i]);
            }
            other => panic!("expected a value-setter update, found {other:?}"),
        }
    }
}

#[test]
fn identity_is_deterministic_and_distinct() {
    let admin_once = identity_from_label("admin").unwrap();
    let admin_again = identity_from_label("admin").unwrap();
    assert_eq!(admin_once, admin_again);

    let voter = identity_from_label("voter_1").unwrap();
    assert_ne!(admin_once, voter);
    assert_eq!(admin_once.bytes, b"admin".to_vec());
}

#[test]
fn query_generators_add_no_extra_wrapping() {
    assert_eq!(
        QueryGenerator::generate_query_value_setter_message(),
        encode_value_setter_query(&ValueSetterQuery::GetValue)
    );
    assert_eq!(
        QueryGenerator::generate_query_election_message(),
        encode_election_query(&ElectionQuery::GetResult)
    );
    assert_eq!(QueryGenerator::generate_query_election_message(), vec![0u8, 0u8]);
    assert_eq!(QueryGenerator::generate_query_value_setter_message(), vec![1u8, 0u8]);
}

#[test]
fn queries_decode_to_their_module() {
    let election = QueryGenerator::generate_query_election_message();
    assert!(matches!(
        decode_runtime_query(&election),
        Some(RuntimeQuery::Election(ElectionQuery::GetResult))
    ));

    let value_setter = QueryGenerator::generate_query_value_setter_message();
    assert!(matches!(
        decode_runtime_query(&value_setter),
        Some(RuntimeQuery::ValueSetter(ValueSetterQuery::GetValue))
    ));

    assert!(decode_runtime_query(&vec![7u8, 0u8]).is_none());
    assert!(decode_runtime_query(&Vec::new()).is_none());
}
