//! The proof assembler.
//!
//! Some queries must return a value together with an inclusion proof
//! anchored at a specific height: the generic key-value proof query, and
//! the connection-handshake bundle.  A proof is an opaque byte sequence,
//! meaningful only together with the height and the keys queried; it is
//! transported intact and never verified here — verification belongs to
//! the caller holding the relevant trusted root.

use vstd::prelude::*;

use crate::codec::{
    connection_end_matches_raw, decode_connection_end, decode_identified_client,
    identified_client_matches_raw, raw_connection_end_valid, raw_identified_client_valid,
    ConnectionEnd, IdentifiedClientState, RawConnectionEnd, RawIdentifiedClientState,
};
use crate::dispatch::{interpret, RpcOutcome};
use crate::errors::QueryError;
use crate::ids::{ClientId, ConnectionId};

verus! {

/// A key-value proof reply as the node serializes it.
#[derive(Debug)]
pub struct RawProofResponse {
    /// The inclusion proof for the queried keys, opaque.
    pub proof: Vec<u8>,
}

/// Decodes a key-value proof query outcome: the proof bytes, intact.
pub fn proof_response(outcome: RpcOutcome<RawProofResponse>) -> (r: Result<Vec<u8>, QueryError>)
    ensures
        outcome is NotFound ==> (r matches Err(e) && e == QueryError::NotFound),
        outcome is Unavailable ==> (r matches Err(e) && e == QueryError::Unavailable),
        outcome is TransportFailure ==> (r matches Err(e) && e == QueryError::TransportFailure),
        outcome matches RpcOutcome::Reply(raw) ==> (r matches Ok(b) && b@ == raw.proof@),
{
    let raw = interpret(outcome)?;
    Ok(raw.proof)
}

/// A connection-handshake bundle as the node serializes it.
#[derive(Debug)]
pub struct RawConnHandshakeProof {
    /// The raw client state with its identifier.
    pub client_state: RawIdentifiedClientState,
    /// Inclusion proof for the client state, opaque.
    pub client_state_proof: Vec<u8>,
    /// The raw connection end.
    pub connection: RawConnectionEnd,
    /// Inclusion proof for the connection end, opaque.
    pub connection_proof: Vec<u8>,
    /// The height every part of the bundle is anchored at.
    pub height: u32,
}

/// A decoded connection-handshake bundle: the client state and the
/// connection end with their respective proofs, all anchored at one
/// height — everything a caller needs to verify the handshake
/// externally.
#[derive(Debug)]
pub struct ConnHandshakeProof {
    /// The decoded client state, under the requested client identifier.
    pub client_state: IdentifiedClientState,
    /// Inclusion proof for the client state, carried intact.
    pub client_state_proof: Vec<u8>,
    /// The connection the bundle was requested for.
    pub connection_id: ConnectionId,
    /// The decoded connection end of that connection.
    pub connection: ConnectionEnd,
    /// Inclusion proof for the connection end, carried intact.
    pub connection_proof: Vec<u8>,
    /// The height every part of the bundle is anchored at.
    pub height: u32,
}

/// Compares two byte strings.
fn bytes_equal(a: &Vec<u8>, b: &Vec<u8>) -> (r: bool)
    ensures
        r == (a@ == b@),
{
    if a.len() != b.len() {
        proof {
            assert(a@.len() != b@.len());
        }
        return false;
    }
    let mut i: usize = 0;
    while i < a.len()
        invariant
            a@.len() == b@.len(),
            0 <= i <= a@.len(),
            forall|j: int| 0 <= j < i ==> a@[j] == b@[j],
        decreases a@.len() - i,
    {
        if a[i] != b[i] {
            proof {
                assert(a@[i as int] != b@[i as int]);
            }
            return false;
        }
        i = i + 1;
    }
    proof {
        assert(a@ =~= b@);
    }
    true
}

/// Decodes a connection-handshake proof outcome, for the handshake of
/// `requested_connection` backed by `requested_client`.  A reply decodes
/// exactly when its client state is identified by the requested client
/// token and its connection end lies in the valid wire subspace; the
/// decoded bundle then carries both states and both proofs intact, tied
/// to the requested identifiers and anchored at the one height the node
/// answered for.
pub fn conn_handshake_proof_response(
    requested_client: &ClientId,
    requested_connection: &ConnectionId,
    outcome: RpcOutcome<RawConnHandshakeProof>,
) -> (r: Result<ConnHandshakeProof, QueryError>)
    ensures
        outcome is NotFound ==> (r matches Err(e) && e == QueryError::NotFound),
        outcome is Unavailable ==> (r matches Err(e) && e == QueryError::Unavailable),
        outcome is TransportFailure ==> (r matches Err(e) && e == QueryError::TransportFailure),
        outcome matches RpcOutcome::Reply(raw) ==> {
            &&& (r is Ok <==> raw_identified_client_valid(raw.client_state)
                && raw.client_state.client_id@ == requested_client@ && raw_connection_end_valid(
                raw.connection,
            ))
            &&& (r matches Ok(b) ==> identified_client_matches_raw(
                b.client_state,
                raw.client_state,
            ) && b.client_state.client_id@ == requested_client@ && b.client_state_proof@
                == raw.client_state_proof@ && b.connection_id@ == requested_connection@
                && connection_end_matches_raw(b.connection, raw.connection)
                && b.connection_proof@ == raw.connection_proof@ && b.height == raw.height)
            &&& (r matches Err(e) ==> e == QueryError::DecodeError)
        },
{
    let raw = interpret(outcome)?;
    let client_state = decode_identified_client(raw.client_state)?;
    if !bytes_equal(client_state.client_id.encoded(), requested_client.encoded()) {
        return Err(QueryError::DecodeError);
    }
    let connection = decode_connection_end(raw.connection)?;
    Ok(ConnHandshakeProof {
        client_state,
        client_state_proof: raw.client_state_proof,
        connection_id: requested_connection.duplicate(),
        connection,
        connection_proof: raw.connection_proof,
        height: raw.height,
    })
}

} // verus!
