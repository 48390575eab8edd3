//! Per-query response decoding.
//!
//! Each function here is the receiving half of one query kind: it maps
//! the transport outcome onto the result taxonomy and, when the node
//! answered, decodes the raw wire reply into the domain object.  Proof
//! bytes are opaque and are carried intact; they are meaningful only
//! together with the height and keys queried, and verifying them is the
//! caller's business.

use vstd::prelude::*;

use crate::codec::{
    channel_end_matches_raw, connection_end_matches_raw, decode_channel_end,
    decode_connection_end, decode_identified_client, identified_client_matches_raw,
    raw_channel_end_valid, raw_connection_end_valid, raw_identified_client_valid, ChannelEnd,
    ConnectionEnd, IdentifiedClientState, RawChannelEnd, RawConnectionEnd,
    RawIdentifiedClientState,
};
use crate::dispatch::{interpret, RpcOutcome};
use crate::errors::QueryError;
use crate::ids::ClientId;

verus! {

/// A client-state reply as the node serializes it.
#[derive(Debug)]
pub struct RawClientStateResponse {
    /// Opaque serialized client state.
    pub client_state: Vec<u8>,
    /// Inclusion proof for the state, opaque.
    pub proof: Vec<u8>,
    /// Height the proof is anchored at.
    pub proof_height: u32,
}

/// A decoded client-state reply, tied back to the identifier it was
/// requested for.
#[derive(Debug)]
pub struct ClientStateResponse {
    /// The client the state was requested for.
    pub client_id: ClientId,
    /// Opaque serialized client state, carried intact.
    pub client_state: Vec<u8>,
    /// Inclusion proof, carried intact.
    pub proof: Vec<u8>,
    /// Height the proof is anchored at.
    pub proof_height: u32,
}

/// Decodes a client-state query outcome.  On a reply the result carries
/// the requested identifier verbatim, so its encoding round-trips to the
/// identifier string the request was made with; state and proof bytes are
/// carried intact.
pub fn client_state_response(
    requested: &ClientId,
    outcome: RpcOutcome<RawClientStateResponse>,
) -> (r: Result<ClientStateResponse, QueryError>)
    ensures
        outcome is NotFound ==> (r matches Err(e) && e == QueryError::NotFound),
        outcome is Unavailable ==> (r matches Err(e) && e == QueryError::Unavailable),
        outcome is TransportFailure ==> (r matches Err(e) && e == QueryError::TransportFailure),
        outcome matches RpcOutcome::Reply(raw) ==> (r matches Ok(c) && c.client_id@ == requested@
            && c.client_state@ == raw.client_state@ && c.proof@ == raw.proof@ && c.proof_height
            == raw.proof_height),
{
    let raw = interpret(outcome)?;
    Ok(ClientStateResponse {
        client_id: requested.duplicate(),
        client_state: raw.client_state,
        proof: raw.proof,
        proof_height: raw.proof_height,
    })
}

/// A consensus-state reply: the state committed at the queried height,
/// with its inclusion proof.  Nothing in it decodes further, so the
/// transport outcome is interpreted with [`crate::dispatch::interpret`].
#[derive(Debug)]
pub struct ConsensusStateResponse {
    /// Opaque serialized consensus state.
    pub consensus_state: Vec<u8>,
    /// Inclusion proof, opaque.
    pub proof: Vec<u8>,
    /// Height the proof is anchored at.
    pub proof_height: u32,
}

/// A packet-commitment reply: the commitment bytes with their proof.
#[derive(Debug)]
pub struct CommitmentResponse {
    /// The commitment bytes, opaque.
    pub commitment: Vec<u8>,
    /// Inclusion proof, opaque.
    pub proof: Vec<u8>,
    /// Height the proof is anchored at.
    pub proof_height: u32,
}

/// A packet-acknowledgement reply: the acknowledgement bytes with their
/// proof.
#[derive(Debug)]
pub struct AcknowledgementResponse {
    /// The acknowledgement bytes, opaque.
    pub acknowledgement: Vec<u8>,
    /// Inclusion proof, opaque.
    pub proof: Vec<u8>,
    /// Height the proof is anchored at.
    pub proof_height: u32,
}

/// A packet-receipt reply: whether the packet was received.
#[derive(Debug)]
pub struct ReceiptResponse {
    /// Whether a receipt exists for the queried sequence.
    pub received: bool,
    /// Inclusion proof, opaque.
    pub proof: Vec<u8>,
    /// Height the proof is anchored at.
    pub proof_height: u32,
}

/// A next-sequence reply: the next sequence number the channel expects
/// to receive.
#[derive(Debug)]
pub struct NextSequenceResponse {
    /// The next expected sequence number.
    pub sequence: u64,
    /// Inclusion proof, opaque.
    pub proof: Vec<u8>,
    /// Height the proof is anchored at.
    pub proof_height: u32,
}

/// A connection-end reply as the node serializes it.
#[derive(Debug)]
pub struct RawConnectionResponse {
    /// The raw connection end.
    pub connection: RawConnectionEnd,
    /// Inclusion proof for the end, opaque.
    pub proof: Vec<u8>,
    /// Height the proof is anchored at.
    pub proof_height: u32,
}

/// A decoded connection-end reply.
#[derive(Debug)]
pub struct ConnectionResponse {
    /// The decoded connection end.
    pub connection: ConnectionEnd,
    /// Inclusion proof, carried intact.
    pub proof: Vec<u8>,
    /// Height the proof is anchored at.
    pub proof_height: u32,
}

/// Decodes a connection query outcome.  A missing connection surfaces as
/// `NotFound`, never as a decode failure; a reply decodes exactly when the
/// raw end lies in the valid wire subspace.
pub fn connection_response(outcome: RpcOutcome<RawConnectionResponse>) -> (r: Result<
    ConnectionResponse,
    QueryError,
>)
    ensures
        outcome is NotFound ==> (r matches Err(e) && e == QueryError::NotFound),
        outcome is Unavailable ==> (r matches Err(e) && e == QueryError::Unavailable),
        outcome is TransportFailure ==> (r matches Err(e) && e == QueryError::TransportFailure),
        outcome matches RpcOutcome::Reply(raw) ==> {
            &&& (r is Ok <==> raw_connection_end_valid(raw.connection))
            &&& (r matches Ok(c) ==> connection_end_matches_raw(c.connection, raw.connection)
                && c.proof@ == raw.proof@ && c.proof_height == raw.proof_height)
            &&& (r matches Err(e) ==> e == QueryError::DecodeError)
        },
{
    let raw = interpret(outcome)?;
    let connection = decode_connection_end(raw.connection)?;
    Ok(ConnectionResponse { connection, proof: raw.proof, proof_height: raw.proof_height })
}

/// A channel-end reply as the node serializes it.
#[derive(Debug)]
pub struct RawChannelResponse {
    /// The raw channel end.
    pub channel: RawChannelEnd,
    /// Inclusion proof for the end, opaque.
    pub proof: Vec<u8>,
    /// Height the proof is anchored at.
    pub proof_height: u32,
}

/// A decoded channel-end reply.
#[derive(Debug)]
pub struct ChannelResponse {
    /// The decoded channel end.
    pub channel: ChannelEnd,
    /// Inclusion proof, carried intact.
    pub proof: Vec<u8>,
    /// Height the proof is anchored at.
    pub proof_height: u32,
}

/// Decodes a channel query outcome, exactly as [`connection_response`]
/// does for connections.
pub fn channel_response(outcome: RpcOutcome<RawChannelResponse>) -> (r: Result<
    ChannelResponse,
    QueryError,
>)
    ensures
        outcome is NotFound ==> (r matches Err(e) && e == QueryError::NotFound),
        outcome is Unavailable ==> (r matches Err(e) && e == QueryError::Unavailable),
        outcome is TransportFailure ==> (r matches Err(e) && e == QueryError::TransportFailure),
        outcome matches RpcOutcome::Reply(raw) ==> {
            &&& (r is Ok <==> raw_channel_end_valid(raw.channel))
            &&& (r matches Ok(c) ==> channel_end_matches_raw(c.channel, raw.channel) && c.proof@
                == raw.proof@ && c.proof_height == raw.proof_height)
            &&& (r matches Err(e) ==> e == QueryError::DecodeError)
        },
{
    let raw = interpret(outcome)?;
    let channel = decode_channel_end(raw.channel)?;
    Ok(ChannelResponse { channel, proof: raw.proof, proof_height: raw.proof_height })
}

/// Decodes a list of identified client states, first failure propagated.
#[verifier::loop_isolation(false)]
pub fn decode_identified_clients(raw: Vec<RawIdentifiedClientState>) -> (r: Result<
    Vec<IdentifiedClientState>,
    QueryError,
>)
    ensures
        r is Ok <==> (forall|i: int|
            0 <= i < raw@.len() ==> raw_identified_client_valid(#[trigger] raw@[i])),
        r matches Ok(list) ==> list@.len() == raw@.len() && (forall|i: int|
            0 <= i < raw@.len() ==> identified_client_matches_raw(
                #[trigger] list@[i],
                raw@[i],
            )),
        r matches Err(e) ==> e == QueryError::DecodeError,
{
    let ghost raw0 = raw@;
    let mut raw = raw;
    let mut out: Vec<IdentifiedClientState> = Vec::new();
    while raw.len() > 0
        invariant
            out@.len() + raw@.len() == raw0.len(),
            forall|j: int| 0 <= j < raw@.len() ==> #[trigger] raw@[j] == raw0[out@.len() + j],
            forall|j: int|
                0 <= j < out@.len() ==> identified_client_matches_raw(
                    #[trigger] out@[j],
                    raw0[j],
                ),
            forall|j: int| 0 <= j < out@.len() ==> raw_identified_client_valid(#[trigger] raw0[j]),
        decreases raw@.len(),
    {
        let ghost k = out@.len() as int;
        let item = raw.remove(0);
        match decode_identified_client(item) {
            Ok(c) => out.push(c),
            Err(e) => {
                proof {
                    assert(!raw_identified_client_valid(raw0[k]));
                }
                return Err(e);
            },
        }
    }
    Ok(out)
}

/// Decodes a clients query outcome: the node's list of identified client
/// states, each identifier validated, each state carried intact.
pub fn clients_response(outcome: RpcOutcome<Vec<RawIdentifiedClientState>>) -> (r: Result<
    Vec<IdentifiedClientState>,
    QueryError,
>)
    ensures
        outcome is NotFound ==> (r matches Err(e) && e == QueryError::NotFound),
        outcome is Unavailable ==> (r matches Err(e) && e == QueryError::Unavailable),
        outcome is TransportFailure ==> (r matches Err(e) && e == QueryError::TransportFailure),
        outcome matches RpcOutcome::Reply(raw) ==> {
            &&& (r is Ok <==> (forall|i: int|
                0 <= i < raw@.len() ==> raw_identified_client_valid(#[trigger] raw@[i])))
            &&& (r matches Ok(list) ==> list@.len() == raw@.len() && (forall|i: int|
                0 <= i < raw@.len() ==> identified_client_matches_raw(
                    #[trigger] list@[i],
                    raw@[i],
                )))
            &&& (r matches Err(e) ==> e == QueryError::DecodeError)
        },
{
    let raw = interpret(outcome)?;
    decode_identified_clients(raw)
}

/// Decodes the client that backs one channel's connection.
pub fn channel_client_response(outcome: RpcOutcome<RawIdentifiedClientState>) -> (r: Result<
    IdentifiedClientState,
    QueryError,
>)
    ensures
        outcome is NotFound ==> (r matches Err(e) && e == QueryError::NotFound),
        outcome is Unavailable ==> (r matches Err(e) && e == QueryError::Unavailable),
        outcome is TransportFailure ==> (r matches Err(e) && e == QueryError::TransportFailure),
        outcome matches RpcOutcome::Reply(raw) ==> {
            &&& (r is Ok <==> raw_identified_client_valid(raw))
            &&& (r matches Ok(c) ==> identified_client_matches_raw(c, raw))
            &&& (r matches Err(e) ==> e == QueryError::DecodeError)
        },
{
    let raw = interpret(outcome)?;
    decode_identified_client(raw)
}

/// Decodes a list of connection ends, first failure propagated.
#[verifier::loop_isolation(false)]
pub fn decode_connection_ends(raw: Vec<RawConnectionEnd>) -> (r: Result<
    Vec<ConnectionEnd>,
    QueryError,
>)
    ensures
        r is Ok <==> (forall|i: int|
            0 <= i < raw@.len() ==> raw_connection_end_valid(#[trigger] raw@[i])),
        r matches Ok(list) ==> list@.len() == raw@.len() && (forall|i: int|
            0 <= i < raw@.len() ==> connection_end_matches_raw(#[trigger] list@[i], raw@[i])),
        r matches Err(e) ==> e == QueryError::DecodeError,
{
    let ghost raw0 = raw@;
    let mut raw = raw;
    let mut out: Vec<ConnectionEnd> = Vec::new();
    while raw.len() > 0
        invariant
            out@.len() + raw@.len() == raw0.len(),
            forall|j: int| 0 <= j < raw@.len() ==> #[trigger] raw@[j] == raw0[out@.len() + j],
            forall|j: int|
                0 <= j < out@.len() ==> connection_end_matches_raw(#[trigger] out@[j], raw0[j]),
            forall|j: int| 0 <= j < out@.len() ==> raw_connection_end_valid(#[trigger] raw0[j]),
        decreases raw@.len(),
    {
        let ghost k = out@.len() as int;
        let item = raw.remove(0);
        match decode_connection_end(item) {
            Ok(c) => out.push(c),
            Err(e) => {
                proof {
                    assert(!raw_connection_end_valid(raw0[k]));
                }
                return Err(e);
            },
        }
    }
    Ok(out)
}

/// Decodes a connections query outcome: every connection end the node
/// returned, each in the valid wire subspace.
pub fn connections_response(outcome: RpcOutcome<Vec<RawConnectionEnd>>) -> (r: Result<
    Vec<ConnectionEnd>,
    QueryError,
>)
    ensures
        outcome is NotFound ==> (r matches Err(e) && e == QueryError::NotFound),
        outcome is Unavailable ==> (r matches Err(e) && e == QueryError::Unavailable),
        outcome is TransportFailure ==> (r matches Err(e) && e == QueryError::TransportFailure),
        outcome matches RpcOutcome::Reply(raw) ==> {
            &&& (r is Ok <==> (forall|i: int|
                0 <= i < raw@.len() ==> raw_connection_end_valid(#[trigger] raw@[i])))
            &&& (r matches Ok(list) ==> list@.len() == raw@.len() && (forall|i: int|
                0 <= i < raw@.len() ==> connection_end_matches_raw(
                    #[trigger] list@[i],
                    raw@[i],
                )))
            &&& (r matches Err(e) ==> e == QueryError::DecodeError)
        },
{
    let raw = interpret(outcome)?;
    decode_connection_ends(raw)
}

/// Decodes a list of channel ends, first failure propagated.
#[verifier::loop_isolation(false)]
pub fn decode_channel_ends(raw: Vec<RawChannelEnd>) -> (r: Result<Vec<ChannelEnd>, QueryError>)
    ensures
        r is Ok <==> (forall|i: int|
            0 <= i < raw@.len() ==> raw_channel_end_valid(#[trigger] raw@[i])),
        r matches Ok(list) ==> list@.len() == raw@.len() && (forall|i: int|
            0 <= i < raw@.len() ==> channel_end_matches_raw(#[trigger] list@[i], raw@[i])),
        r matches Err(e) ==> e == QueryError::DecodeError,
{
    let ghost raw0 = raw@;
    let mut raw = raw;
    let mut out: Vec<ChannelEnd> = Vec::new();
    while raw.len() > 0
        invariant
            out@.len() + raw@.len() == raw0.len(),
            forall|j: int| 0 <= j < raw@.len() ==> #[trigger] raw@[j] == raw0[out@.len() + j],
            forall|j: int|
                0 <= j < out@.len() ==> channel_end_matches_raw(#[trigger] out@[j], raw0[j]),
            forall|j: int| 0 <= j < out@.len() ==> raw_channel_end_valid(#[trigger] raw0[j]),
        decreases raw@.len(),
    {
        let ghost k = out@.len() as int;
        let item = raw.remove(0);
        match decode_channel_end(item) {
            Ok(c) => out.push(c),
            Err(e) => {
                proof {
                    assert(!raw_channel_end_valid(raw0[k]));
                }
                return Err(e);
            },
        }
    }
    Ok(out)
}

/// Decodes a channels query outcome: every channel end the node returned,
/// whether for the whole node or for one connection.
pub fn channels_response(outcome: RpcOutcome<Vec<RawChannelEnd>>) -> (r: Result<
    Vec<ChannelEnd>,
    QueryError,
>)
    ensures
        outcome is NotFound ==> (r matches Err(e) && e == QueryError::NotFound),
        outcome is Unavailable ==> (r matches Err(e) && e == QueryError::Unavailable),
        outcome is TransportFailure ==> (r matches Err(e) && e == QueryError::TransportFailure),
        outcome matches RpcOutcome::Reply(raw) ==> {
            &&& (r is Ok <==> (forall|i: int|
                0 <= i < raw@.len() ==> raw_channel_end_valid(#[trigger] raw@[i])))
            &&& (r matches Ok(list) ==> list@.len() == raw@.len() && (forall|i: int|
                0 <= i < raw@.len() ==> channel_end_matches_raw(
                    #[trigger] list@[i],
                    raw@[i],
                )))
            &&& (r matches Err(e) ==> e == QueryError::DecodeError)
        },
{
    let raw = interpret(outcome)?;
    decode_channel_ends(raw)
}

} // verus!
