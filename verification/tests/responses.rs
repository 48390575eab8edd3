use ibc_query::codec::{RawConnectionEnd, RawIdentifiedClientState};
use ibc_query::dispatch::{interpret, RpcOutcome};
use ibc_query::errors::QueryError;
use ibc_query::ids::{ClientId, ConnectionId};
use ibc_query::proofs::{conn_handshake_proof_response, proof_response, RawConnHandshakeProof,
    RawProofResponse};
use ibc_query::response::{
    channels_response, clients_response, client_state_response, connection_response,
    connections_response, NextSequenceResponse, RawClientStateResponse, RawConnectionResponse,
    ReceiptResponse,
};

/// A test double node: it knows the client states for a fixed set of
/// (height, client token) pairs.
fn double_node_client_state(at: u32, client: &[u8]) -> RpcOutcome<RawClientStateResponse> {
    let known: Vec<(u32, &[u8])> = vec![(30, b"11-beefy-1"), (57, b"07-tendermint-3")];
    for (h, c) in known {
        if h == at && c == client {
            let mut state = vec![at as u8];
            state.extend_from_slice(client);
            return RpcOutcome::Reply(RawClientStateResponse {
                client_state: state,
                proof: vec![0xAA, 0xBB],
                proof_height: at,
            });
        }
    }
    RpcOutcome::NotFound
}

#[test]
fn client_state_identifier_round_trips() {
    let pairs: Vec<(u32, &[u8])> = vec![(30, b"11-beefy-1"), (57, b"07-tendermint-3")];
    for (at, token) in pairs {
        let requested = ClientId::parse(token.to_vec()).unwrap();
        let outcome = double_node_client_state(at, requested.encoded());
        let resp = client_state_response(&requested, outcome).unwrap();
        let round_tripped = ClientId::parse(resp.client_id.encoded().clone()).unwrap();
        assert_eq!(round_tripped.encoded(), &token.to_vec());
        assert_eq!(resp.proof_height, at);
    }
}

#[test]
fn unknown_client_state_is_not_found() {
    let requested = ClientId::parse(b"11-beefy-9".to_vec()).unwrap();
    let outcome = double_node_client_state(30, requested.encoded());
    assert_eq!(
        client_state_response(&requested, outcome).unwrap_err(),
        QueryError::NotFound
    );
}

fn sample_connection_end() -> RawConnectionEnd {
    RawConnectionEnd {
        client_id: b"11-beefy-1".to_vec(),
        state: 3,
        counterparty_client_id: b"07-tendermint-3".to_vec(),
        counterparty_connection_id: Vec::new(),
        delay_period: 0,
    }
}

#[test]
fn missing_connection_is_not_found_not_decode_error() {
    let r = connection_response(RpcOutcome::NotFound);
    assert_eq!(r.unwrap_err(), QueryError::NotFound);
}

#[test]
fn pruned_height_is_unavailable() {
    let r = connection_response(RpcOutcome::Unavailable);
    assert_eq!(r.unwrap_err(), QueryError::Unavailable);
}

#[test]
fn lost_connection_is_a_transport_failure() {
    let r = connection_response(RpcOutcome::TransportFailure);
    assert_eq!(r.unwrap_err(), QueryError::TransportFailure);
}

#[test]
fn connection_reply_decodes_and_keeps_the_proof() {
    let outcome = RpcOutcome::Reply(RawConnectionResponse {
        connection: sample_connection_end(),
        proof: vec![1, 2, 3],
        proof_height: 57,
    });
    let r = connection_response(outcome).unwrap();
    assert_eq!(r.connection.client_id.encoded(), &b"11-beefy-1".to_vec());
    assert!(r.connection.counterparty_connection_id.is_none());
    assert_eq!(r.proof, vec![1, 2, 3]);
    assert_eq!(r.proof_height, 57);
}

#[test]
fn malformed_connection_reply_is_a_decode_error() {
    let mut bad = sample_connection_end();
    bad.state = 0;
    let outcome = RpcOutcome::Reply(RawConnectionResponse {
        connection: bad,
        proof: Vec::new(),
        proof_height: 57,
    });
    assert_eq!(connection_response(outcome).unwrap_err(), QueryError::DecodeError);
}

#[test]
fn clients_reply_decodes_every_entry_in_order() {
    let raw = vec![
        RawIdentifiedClientState { client_id: b"11-beefy-1".to_vec(), client_state: vec![1] },
        RawIdentifiedClientState { client_id: b"11-beefy-2".to_vec(), client_state: vec![2] },
    ];
    let list = clients_response(RpcOutcome::Reply(raw)).unwrap();
    assert_eq!(list.len(), 2);
    assert_eq!(list[0].client_id.encoded(), &b"11-beefy-1".to_vec());
    assert_eq!(list[0].client_state, vec![1]);
    assert_eq!(list[1].client_id.encoded(), &b"11-beefy-2".to_vec());
    assert_eq!(list[1].client_state, vec![2]);
}

#[test]
fn one_bad_client_entry_fails_the_list_decode() {
    let raw = vec![
        RawIdentifiedClientState { client_id: b"11-beefy-1".to_vec(), client_state: vec![1] },
        RawIdentifiedClientState { client_id: b"bad".to_vec(), client_state: vec![2] },
    ];
    assert_eq!(
        clients_response(RpcOutcome::Reply(raw)).unwrap_err(),
        QueryError::DecodeError
    );
}

#[test]
fn concurrent_queries_are_independent_of_call_order() {
    let first = connections_response(RpcOutcome::Reply(vec![sample_connection_end()]));
    let empty: Vec<ibc_query::codec::RawChannelEnd> = Vec::new();
    let second = channels_response(RpcOutcome::Reply(empty));

    let empty_again: Vec<ibc_query::codec::RawChannelEnd> = Vec::new();
    let second_again = channels_response(RpcOutcome::Reply(empty_again));
    let first_again = connections_response(RpcOutcome::Reply(vec![sample_connection_end()]));

    let a = first.unwrap();
    let a_again = first_again.unwrap();
    assert_eq!(a.len(), a_again.len());
    assert_eq!(
        a[0].client_id.encoded(),
        a_again[0].client_id.encoded()
    );
    assert_eq!(second.unwrap().len(), second_again.unwrap().len());
}

#[test]
fn interpret_passes_a_reply_through() {
    assert_eq!(interpret(RpcOutcome::Reply(41u64)).unwrap(), 41);
    let r: Result<u64, QueryError> = interpret(RpcOutcome::NotFound);
    assert_eq!(r.unwrap_err(), QueryError::NotFound);
}

#[test]
fn pass_through_replies_keep_their_fields() {
    let r = interpret(RpcOutcome::Reply(ReceiptResponse {
        received: true,
        proof: vec![1],
        proof_height: 57,
    }))
    .unwrap();
    assert!(r.received);
    assert_eq!(r.proof, vec![1]);
    let n = interpret(RpcOutcome::Reply(NextSequenceResponse {
        sequence: 12,
        proof: vec![2],
        proof_height: 57,
    }))
    .unwrap();
    assert_eq!(n.sequence, 12);
    assert_eq!(n.proof_height, 57);
}

#[test]
fn proof_bytes_are_carried_intact() {
    let outcome = RpcOutcome::Reply(RawProofResponse { proof: vec![7, 7, 7] });
    assert_eq!(proof_response(outcome).unwrap(), vec![7, 7, 7]);
    let missing: Result<Vec<u8>, QueryError> = proof_response(RpcOutcome::NotFound);
    assert_eq!(missing.unwrap_err(), QueryError::NotFound);
}

#[test]
fn handshake_bundle_decodes_anchored_at_one_height() {
    let requested_client = ClientId::parse(b"11-beefy-1".to_vec()).unwrap();
    let requested_connection = ConnectionId::parse(b"connection-0".to_vec()).unwrap();
    let outcome = RpcOutcome::Reply(RawConnHandshakeProof {
        client_state: RawIdentifiedClientState {
            client_id: b"11-beefy-1".to_vec(),
            client_state: vec![4, 5],
        },
        client_state_proof: vec![9],
        connection: sample_connection_end(),
        connection_proof: vec![8, 8],
        height: 57,
    });
    let bundle =
        conn_handshake_proof_response(&requested_client, &requested_connection, outcome).unwrap();
    assert_eq!(bundle.client_state.client_id.encoded(), &b"11-beefy-1".to_vec());
    assert_eq!(bundle.client_state.client_state, vec![4, 5]);
    assert_eq!(bundle.client_state_proof, vec![9]);
    assert_eq!(bundle.connection_id.encoded(), &b"connection-0".to_vec());
    assert_eq!(bundle.connection.client_id.encoded(), &b"11-beefy-1".to_vec());
    assert_eq!(bundle.connection_proof, vec![8, 8]);
    assert_eq!(bundle.height, 57);
}

#[test]
fn handshake_bundle_with_bad_identifier_is_a_decode_error() {
    let requested_client = ClientId::parse(b"11-beefy-1".to_vec()).unwrap();
    let requested_connection = ConnectionId::parse(b"connection-0".to_vec()).unwrap();
    let outcome = RpcOutcome::Reply(RawConnHandshakeProof {
        client_state: RawIdentifiedClientState {
            client_id: b"x".to_vec(),
            client_state: Vec::new(),
        },
        client_state_proof: Vec::new(),
        connection: sample_connection_end(),
        connection_proof: Vec::new(),
        height: 1,
    });
    assert_eq!(
        conn_handshake_proof_response(&requested_client, &requested_connection, outcome)
            .unwrap_err(),
        QueryError::DecodeError
    );
}

#[test]
fn handshake_bundle_for_another_client_is_a_decode_error() {
    let requested_client = ClientId::parse(b"11-beefy-1".to_vec()).unwrap();
    let requested_connection = ConnectionId::parse(b"connection-0".to_vec()).unwrap();
    let outcome = RpcOutcome::Reply(RawConnHandshakeProof {
        client_state: RawIdentifiedClientState {
            client_id: b"11-beefy-2".to_vec(),
            client_state: vec![1],
        },
        client_state_proof: Vec::new(),
        connection: sample_connection_end(),
        connection_proof: Vec::new(),
        height: 1,
    });
    assert_eq!(
        conn_handshake_proof_response(&requested_client, &requested_connection, outcome)
            .unwrap_err(),
        QueryError::DecodeError
    );
}

#[test]
fn handshake_bundle_with_bad_connection_end_is_a_decode_error() {
    let requested_client = ClientId::parse(b"11-beefy-1".to_vec()).unwrap();
    let requested_connection = ConnectionId::parse(b"connection-0".to_vec()).unwrap();
    let mut bad = sample_connection_end();
    bad.state = 0;
    let outcome = RpcOutcome::Reply(RawConnHandshakeProof {
        client_state: RawIdentifiedClientState {
            client_id: b"11-beefy-1".to_vec(),
            client_state: vec![1],
        },
        client_state_proof: Vec::new(),
        connection: bad,
        connection_proof: Vec::new(),
        height: 1,
    });
    assert_eq!(
        conn_handshake_proof_response(&requested_client, &requested_connection, outcome)
            .unwrap_err(),
        QueryError::DecodeError
    );
}

#[test]
fn missing_handshake_bundle_is_not_found() {
    let requested_client = ClientId::parse(b"11-beefy-1".to_vec()).unwrap();
    let requested_connection = ConnectionId::parse(b"connection-0".to_vec()).unwrap();
    assert_eq!(
        conn_handshake_proof_response(&requested_client, &requested_connection,
            RpcOutcome::NotFound)
            .unwrap_err(),
        QueryError::NotFound
    );
}
