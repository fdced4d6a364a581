use da_fixtures::decode::{decode_runtime_call, decode_transaction};
use da_fixtures::dispatch::{encode_election_call, encode_value_setter_call, RuntimeCall};
use da_fixtures::election::ElectionCall;
use da_fixtures::fixture::simulate_da;
use da_fixtures::identity::{identity_from_label, Identity};
use da_fixtures::tx::Transaction;
use da_fixtures::value_setter::{SetValue, ValueSetterCall};

#[test]
fn transaction_round_trip() {
    let signer = identity_from_label("admin").unwrap();
    let msg = encode_value_setter_call(&ValueSetterCall::DoSetValue(SetValue { new_value: 7 }));
    let tx = Transaction::new(msg.clone(), signer.clone());
    let bytes = tx.serialize().unwrap();
    let decoded = decode_transaction(&bytes).unwrap();
    assert_eq!(decoded.signature, Vec::<u8>::new());
    assert_eq!(decoded.runtime_msg, msg);
    assert_eq!(decoded.pub_key, signer);
    assert_eq!(decoded.nonce, 0);
}

#[test]
fn election_call_round_trip_with_multibyte_names() {
    let call = ElectionCall::SetCandidates {
        names: vec!["ærø".to_owned(), "候補".to_owned(), "plain".to_owned()],
    };
    let msg = encode_election_call(&call).unwrap();
    match decode_runtime_call(&msg).unwrap() {
        RuntimeCall::Election(decoded) => assert_eq!(decoded, call),
        other => panic!("expected an election call, found {other:?}"),
    }
}

#[test]
fn decode_rejects_malformed_buffers() {
    assert!(decode_transaction(&Vec::new()).is_none());
    assert!(decode_transaction(&vec![1u8, 0, 0]).is_none());

    // A four-byte length field pointing past the end of the buffer.
    assert!(decode_transaction(&vec![200u8, 0, 0, 0, 1, 2, 3]).is_none());

    // A well-formed transaction with one trailing byte is refused whole.
    let signer = identity_from_label("admin").unwrap();
    let msg = encode_value_setter_call(&ValueSetterCall::DoSetValue(SetValue { new_value: 7 }));
    let mut bytes = Transaction::new(msg, signer).serialize().unwrap();
    bytes.push(0);
    assert!(decode_transaction(&bytes).is_none());

    // An unknown module discriminant is refused.
    assert!(decode_runtime_call(&vec![9u8, 0]).is_none());
    assert!(decode_runtime_call(&Vec::new()).is_none());
}

#[test]
fn encoded_calls_have_exact_wire_bytes() {
    let update = encode_value_setter_call(&ValueSetterCall::DoSetValue(SetValue { new_value: 99 }));
    assert_eq!(update, vec![1u8, 0, 99, 0, 0, 0]);

    let vote = encode_election_call(&ElectionCall::Vote(1)).unwrap();
    assert_eq!(vote, vec![0u8, 2, 1, 0, 0, 0, 0, 0, 0, 0]);

    let freeze = encode_election_call(&ElectionCall::FreezeElection).unwrap();
    assert_eq!(freeze, vec![0u8, 3]);

    let admin = identity_from_label("admin").unwrap();
    let add_voter = encode_election_call(&ElectionCall::AddVoter(admin)).unwrap();
    assert_eq!(add_voter, vec![0u8, 1, 5, 0, 0, 0, b'a', b'd', b'm', b'i', b'n']);

    let set_candidates = encode_election_call(&ElectionCall::SetCandidates {
        names: vec!["ab".to_owned(), "c".to_owned()],
    })
    .unwrap();
    assert_eq!(
        set_candidates,
        vec![0u8, 0, 2, 0, 0, 0, 2, 0, 0, 0, b'a', b'b', 1, 0, 0, 0, b'c']
    );
}

#[test]
fn wire_format_matches_borsh() {
    // The envelope frames its fields exactly as borsh serializes the
    // equivalent (signature, message, key, nonce) structure.
    let signer = identity_from_label("admin").unwrap();
    let msg = encode_value_setter_call(&ValueSetterCall::DoSetValue(SetValue { new_value: 99 }));
    let tx_bytes = Transaction::new(msg.clone(), signer).serialize().unwrap();
    let borsh_bytes =
        borsh::to_vec(&(Vec::<u8>::new(), msg.clone(), b"admin".to_vec(), 0u64)).unwrap();
    assert_eq!(tx_bytes, borsh_bytes);

    // A dispatched call encodes as borsh would a nested tagged union.
    let borsh_update = borsh::to_vec(&(1u8, (0u8, 99u32))).unwrap();
    assert_eq!(msg, borsh_update);

    let names = vec!["candidate_1".to_owned(), "candidate_2".to_owned()];
    let set_candidates =
        encode_election_call(&ElectionCall::SetCandidates { names: names.clone() }).unwrap();
    let borsh_set_candidates = borsh::to_vec(&(0u8, (0u8, names))).unwrap();
    assert_eq!(set_candidates, borsh_set_candidates);

    let voter = Identity { bytes: b"voter_1".to_vec() };
    let add_voter = encode_election_call(&ElectionCall::AddVoter(voter)).unwrap();
    let borsh_add_voter = borsh::to_vec(&(0u8, (1u8, b"voter_1".to_vec()))).unwrap();
    assert_eq!(add_voter, borsh_add_voter);

    let vote = encode_election_call(&ElectionCall::Vote(1)).unwrap();
    let borsh_vote = borsh::to_vec(&(0u8, (2u8, 1u64))).unwrap();
    assert_eq!(vote, borsh_vote);
}

#[test]
fn simulate_da_round_trips_whole() {
    for raw in simulate_da() {
        let tx = decode_transaction(&raw.data).unwrap();
        let reencoded = tx.serialize().unwrap();
        assert_eq!(reencoded, raw.data);
        assert!(decode_runtime_call(&tx.runtime_msg).is_some());
    }
}
