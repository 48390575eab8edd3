//! The wire codec.
//!
//! Raw wire objects mirror the node's serialized representations: plain
//! structs of integers and byte strings, with enumerations carried as bare
//! numbers.  Decoding converts a raw object into a strongly typed domain
//! object.  It is total on the valid subspace of the wire schema and fails
//! with [`QueryError::DecodeError`] everywhere else: an out-of-range
//! enumeration value, a malformed identifier, or a packet with no timeout
//! at all is rejected, never defaulted.

use vstd::prelude::*;

use crate::errors::QueryError;
use crate::ids::{
    valid_channel_id, valid_client_id, valid_connection_id, valid_port_id,
    ChannelId, ClientId, ConnectionId, PortId,
};

verus! {

/// Whether packet delivery on a channel is ordered.
#[derive(Clone, Copy, Debug, PartialEq, Eq, Structural)]
pub enum ChannelOrdering {
    /// Packets may be relayed in any order.
    Unordered,
    /// Packets must be relayed in the order they were sent.
    Ordered,
}

/// The wire value that stands for an ordering; `0` is the unspecified
/// value and is not accepted by the codec.
pub open spec fn ordering_value(o: ChannelOrdering) -> u32 {
    match o {
        ChannelOrdering::Unordered => 1,
        ChannelOrdering::Ordered => 2,
    }
}

/// Decodes a wire ordering value; exactly `1` and `2` are valid.
pub fn decode_ordering(raw: u32) -> (r: Result<ChannelOrdering, QueryError>)
    ensures
        r is Ok <==> (raw == 1 || raw == 2),
        r matches Ok(o) ==> ordering_value(o) == raw,
        r matches Err(e) ==> e == QueryError::DecodeError,
{
    if raw == 1 {
        Ok(ChannelOrdering::Unordered)
    } else if raw == 2 {
        Ok(ChannelOrdering::Ordered)
    } else {
        Err(QueryError::DecodeError)
    }
}

/// A packet as the node serializes it.
#[derive(Debug)]
pub struct RawPacket {
    /// Position of the packet in its channel's ordered stream.
    pub sequence: u64,
    /// Port the packet was sent from.
    pub source_port: Vec<u8>,
    /// Channel the packet was sent on.
    pub source_channel: Vec<u8>,
    /// Port the packet is addressed to.
    pub destination_port: Vec<u8>,
    /// Channel the packet is addressed to.
    pub destination_channel: Vec<u8>,
    /// Opaque application payload.
    pub data: Vec<u8>,
    /// Block height after which the packet times out; `0` means none.
    pub timeout_height: u64,
    /// Timestamp after which the packet times out; `0` means none.
    pub timeout_timestamp: u64,
    /// Wire value of the channel ordering the packet was observed under.
    pub ordering: u32,
}

/// The valid subspace of the wire packet schema: in-range ordering,
/// well-formed identifiers, and at least one timeout.
pub open spec fn raw_packet_valid(r: RawPacket) -> bool {
    &&& (r.ordering == 1 || r.ordering == 2)
    &&& valid_port_id(r.source_port@)
    &&& valid_channel_id(r.source_channel@)
    &&& valid_port_id(r.destination_port@)
    &&& valid_channel_id(r.destination_channel@)
    &&& !(r.timeout_height == 0 && r.timeout_timestamp == 0)
}

/// A decoded cross-chain message unit.
#[derive(Debug)]
pub struct Packet {
    /// Position of the packet in its channel's ordered stream.
    pub sequence: u64,
    /// Port the packet was sent from.
    pub source_port: PortId,
    /// Channel the packet was sent on.
    pub source_channel: ChannelId,
    /// Port the packet is addressed to.
    pub destination_port: PortId,
    /// Channel the packet is addressed to.
    pub destination_channel: ChannelId,
    /// Opaque application payload, carried intact.
    pub data: Vec<u8>,
    /// Block height after which the packet times out; `0` means none.
    pub timeout_height: u64,
    /// Timestamp after which the packet times out; `0` means none.
    pub timeout_timestamp: u64,
    /// Delivery ordering of the packet's channel.
    pub ordering: ChannelOrdering,
}

impl Packet {
    /// Every identifier of the packet is well formed and a timeout is set.
    pub open spec fn wf(&self) -> bool {
        &&& self.source_port.wf()
        &&& self.source_channel.wf()
        &&& self.destination_port.wf()
        &&& self.destination_channel.wf()
        &&& !(self.timeout_height == 0 && self.timeout_timestamp == 0)
    }
}

/// The decoded packet carries exactly the fields of the raw one.
pub open spec fn packet_matches_raw(p: Packet, r: RawPacket) -> bool {
    &&& p.sequence == r.sequence
    &&& p.source_port@ == r.source_port@
    &&& p.source_channel@ == r.source_channel@
    &&& p.destination_port@ == r.destination_port@
    &&& p.destination_channel@ == r.destination_channel@
    &&& p.data@ == r.data@
    &&& p.timeout_height == r.timeout_height
    &&& p.timeout_timestamp == r.timeout_timestamp
    &&& ordering_value(p.ordering) == r.ordering
}

/// Decodes one wire packet.  Total on the valid subspace of the schema,
/// a `DecodeError` everywhere else; the failure of one packet says nothing
/// about its siblings in a batch.
pub fn decode_packet(raw: RawPacket) -> (r: Result<Packet, QueryError>)
    ensures
        r is Ok <==> raw_packet_valid(raw),
        r matches Ok(p) ==> packet_matches_raw(p, raw) && p.wf(),
        r matches Err(e) ==> e == QueryError::DecodeError,
{
    let RawPacket {
        sequence,
        source_port,
        source_channel,
        destination_port,
        destination_channel,
        data,
        timeout_height,
        timeout_timestamp,
        ordering,
    } = raw;
    let ordering = decode_ordering(ordering)?;
    let source_port = PortId::parse(source_port)?;
    let source_channel = ChannelId::parse(source_channel)?;
    let destination_port = PortId::parse(destination_port)?;
    let destination_channel = ChannelId::parse(destination_channel)?;
    if timeout_height == 0 && timeout_timestamp == 0 {
        return Err(QueryError::DecodeError);
    }
    Ok(Packet {
        sequence,
        source_port,
        source_channel,
        destination_port,
        destination_channel,
        data,
        timeout_height,
        timeout_timestamp,
        ordering,
    })
}

/// Lifecycle state of a channel end.
#[derive(Clone, Copy, Debug, PartialEq, Eq, Structural)]
pub enum ChannelState {
    /// The handshake was started on this side.
    Init,
    /// The handshake was acknowledged by the counterparty.
    TryOpen,
    /// The channel is open for packets.
    Open,
    /// The channel was closed.
    Closed,
}

/// The wire value that stands for a channel state; `0` is the unspecified
/// value and is not accepted by the codec.
pub open spec fn channel_state_value(s: ChannelState) -> u32 {
    match s {
        ChannelState::Init => 1,
        ChannelState::TryOpen => 2,
        ChannelState::Open => 3,
        ChannelState::Closed => 4,
    }
}

/// Decodes a wire channel state value; exactly `1` to `4` are valid.
pub fn decode_channel_state(raw: u32) -> (r: Result<ChannelState, QueryError>)
    ensures
        r is Ok <==> 1 <= raw <= 4,
        r matches Ok(s) ==> channel_state_value(s) == raw,
        r matches Err(e) ==> e == QueryError::DecodeError,
{
    if raw == 1 {
        Ok(ChannelState::Init)
    } else if raw == 2 {
        Ok(ChannelState::TryOpen)
    } else if raw == 3 {
        Ok(ChannelState::Open)
    } else if raw == 4 {
        Ok(ChannelState::Closed)
    } else {
        Err(QueryError::DecodeError)
    }
}

/// Lifecycle state of a connection end.
#[derive(Clone, Copy, Debug, PartialEq, Eq, Structural)]
pub enum ConnectionState {
    /// The handshake was started on this side.
    Init,
    /// The handshake was acknowledged by the counterparty.
    TryOpen,
    /// The connection is established.
    Open,
}

/// The wire value that stands for a connection state; `0` is the
/// unspecified value and is not accepted by the codec.
pub open spec fn connection_state_value(s: ConnectionState) -> u32 {
    match s {
        ConnectionState::Init => 1,
        ConnectionState::TryOpen => 2,
        ConnectionState::Open => 3,
    }
}

/// Decodes a wire connection state value; exactly `1` to `3` are valid.
pub fn decode_connection_state(raw: u32) -> (r: Result<ConnectionState, QueryError>)
    ensures
        r is Ok <==> 1 <= raw <= 3,
        r matches Ok(s) ==> connection_state_value(s) == raw,
        r matches Err(e) ==> e == QueryError::DecodeError,
{
    if raw == 1 {
        Ok(ConnectionState::Init)
    } else if raw == 2 {
        Ok(ConnectionState::TryOpen)
    } else if raw == 3 {
        Ok(ConnectionState::Open)
    } else {
        Err(QueryError::DecodeError)
    }
}

/// A channel end as the node serializes it.
#[derive(Debug)]
pub struct RawChannelEnd {
    /// Wire value of the channel's lifecycle state.
    pub state: u32,
    /// Wire value of the channel's delivery ordering.
    pub ordering: u32,
    /// Port of the counterparty end.
    pub counterparty_port_id: Vec<u8>,
    /// Channel of the counterparty end; empty while none is assigned.
    pub counterparty_channel_id: Vec<u8>,
    /// Identifiers of the connections the channel travels over.
    pub connection_hops: Vec<Vec<u8>>,
    /// Opaque version string agreed during the handshake.
    pub version: Vec<u8>,
}

/// The valid subspace of the wire channel-end schema.
pub open spec fn raw_channel_end_valid(r: RawChannelEnd) -> bool {
    &&& 1 <= r.state <= 4
    &&& (r.ordering == 1 || r.ordering == 2)
    &&& valid_port_id(r.counterparty_port_id@)
    &&& (r.counterparty_channel_id@.len() == 0 || valid_channel_id(r.counterparty_channel_id@))
    &&& forall|i: int|
        0 <= i < r.connection_hops@.len() ==> valid_connection_id(
            #[trigger] r.connection_hops@[i]@,
        )
}

/// A decoded channel end.
#[derive(Debug)]
pub struct ChannelEnd {
    /// Lifecycle state of the channel.
    pub state: ChannelState,
    /// Delivery ordering of the channel.
    pub ordering: ChannelOrdering,
    /// Port of the counterparty end.
    pub counterparty_port_id: PortId,
    /// Channel of the counterparty end, once one is assigned.
    pub counterparty_channel_id: Option<ChannelId>,
    /// The connections the channel travels over.
    pub connection_hops: Vec<ConnectionId>,
    /// Opaque version string, carried intact.
    pub version: Vec<u8>,
}

/// The decoded channel end carries exactly the fields of the raw one; an
/// empty counterparty channel decodes to `None`.
pub open spec fn channel_end_matches_raw(c: ChannelEnd, r: RawChannelEnd) -> bool {
    &&& channel_state_value(c.state) == r.state
    &&& ordering_value(c.ordering) == r.ordering
    &&& c.counterparty_port_id@ == r.counterparty_port_id@
    &&& match c.counterparty_channel_id {
        Some(id) => id@ == r.counterparty_channel_id@,
        None => r.counterparty_channel_id@.len() == 0,
    }
    &&& c.connection_hops@.len() == r.connection_hops@.len()
    &&& forall|i: int|
        0 <= i < c.connection_hops@.len() ==> (#[trigger] c.connection_hops@[i])@
            == r.connection_hops@[i]@
    &&& c.version@ == r.version@
}

/// Decodes one wire channel end.  Total on the valid subspace of the
/// schema, a `DecodeError` everywhere else.
#[verifier::loop_isolation(false)]
pub fn decode_channel_end(raw: RawChannelEnd) -> (r: Result<ChannelEnd, QueryError>)
    ensures
        r is Ok <==> raw_channel_end_valid(raw),
        r matches Ok(c) ==> channel_end_matches_raw(c, raw),
        r matches Err(e) ==> e == QueryError::DecodeError,
{
    let ghost raw0 = raw;
    let RawChannelEnd {
        state,
        ordering,
        counterparty_port_id,
        counterparty_channel_id,
        mut connection_hops,
        version,
    } = raw;
    let state = decode_channel_state(state)?;
    let ordering = decode_ordering(ordering)?;
    let counterparty_port_id = PortId::parse(counterparty_port_id)?;
    let counterparty_channel_id = if counterparty_channel_id.len() == 0 {
        None
    } else {
        Some(ChannelId::parse(counterparty_channel_id)?)
    };
    let ghost raw_hops: Seq<Vec<u8>> = connection_hops@;
    let mut hops: Vec<ConnectionId> = Vec::new();
    while connection_hops.len() > 0
        invariant
            raw0.connection_hops@ == raw_hops,
            hops@.len() + connection_hops@.len() == raw_hops.len(),
            forall|j: int|
                0 <= j < connection_hops@.len() ==> (#[trigger] connection_hops@[j])@
                    == raw_hops[hops@.len() + j]@,
            forall|j: int| 0 <= j < hops@.len() ==> (#[trigger] hops@[j])@ == raw_hops[j]@,
            forall|j: int| 0 <= j < hops@.len() ==> valid_connection_id(#[trigger] raw_hops[j]@),
        decreases connection_hops@.len(),
    {
        let ghost k = hops@.len() as int;
        let hop = connection_hops.remove(0);
        proof {
            assert(hop@ == raw_hops[k]@);
        }
        match ConnectionId::parse(hop) {
            Ok(id) => hops.push(id),
            Err(e) => {
                proof {
                    assert(raw0.connection_hops@ == raw_hops);
                    assert(!valid_connection_id(raw0.connection_hops@[k]@));
                }
                return Err(e);
            },
        }
    }
    Ok(ChannelEnd {
        state,
        ordering,
        counterparty_port_id,
        counterparty_channel_id,
        connection_hops: hops,
        version,
    })
}

/// A connection end as the node serializes it.
#[derive(Debug)]
pub struct RawConnectionEnd {
    /// Client backing this end of the connection.
    pub client_id: Vec<u8>,
    /// Wire value of the connection's lifecycle state.
    pub state: u32,
    /// Client backing the counterparty end.
    pub counterparty_client_id: Vec<u8>,
    /// Connection of the counterparty end; empty while none is assigned.
    pub counterparty_connection_id: Vec<u8>,
    /// Delay the connection imposes on packet verification, in nanoseconds.
    pub delay_period: u64,
}

/// The valid subspace of the wire connection-end schema.
pub open spec fn raw_connection_end_valid(r: RawConnectionEnd) -> bool {
    &&& valid_client_id(r.client_id@)
    &&& 1 <= r.state <= 3
    &&& valid_client_id(r.counterparty_client_id@)
    &&& (r.counterparty_connection_id@.len() == 0 || valid_connection_id(
        r.counterparty_connection_id@,
    ))
}

/// A decoded connection end.
#[derive(Debug)]
pub struct ConnectionEnd {
    /// Client backing this end of the connection.
    pub client_id: ClientId,
    /// Lifecycle state of the connection.
    pub state: ConnectionState,
    /// Client backing the counterparty end.
    pub counterparty_client_id: ClientId,
    /// Connection of the counterparty end, once one is assigned.
    pub counterparty_connection_id: Option<ConnectionId>,
    /// Delay the connection imposes on packet verification, in nanoseconds.
    pub delay_period: u64,
}

/// The decoded connection end carries exactly the fields of the raw one;
/// an empty counterparty connection decodes to `None`.
pub open spec fn connection_end_matches_raw(c: ConnectionEnd, r: RawConnectionEnd) -> bool {
    &&& c.client_id@ == r.client_id@
    &&& connection_state_value(c.state) == r.state
    &&& c.counterparty_client_id@ == r.counterparty_client_id@
    &&& match c.counterparty_connection_id {
        Some(id) => id@ == r.counterparty_connection_id@,
        None => r.counterparty_connection_id@.len() == 0,
    }
    &&& c.delay_period == r.delay_period
}

/// Decodes one wire connection end.  Total on the valid subspace of the
/// schema, a `DecodeError` everywhere else.
pub fn decode_connection_end(raw: RawConnectionEnd) -> (r: Result<ConnectionEnd, QueryError>)
    ensures
        r is Ok <==> raw_connection_end_valid(raw),
        r matches Ok(c) ==> connection_end_matches_raw(c, raw),
        r matches Err(e) ==> e == QueryError::DecodeError,
{
    let RawConnectionEnd {
        client_id,
        state,
        counterparty_client_id,
        counterparty_connection_id,
        delay_period,
    } = raw;
    let client_id = ClientId::parse(client_id)?;
    let state = decode_connection_state(state)?;
    let counterparty_client_id = ClientId::parse(counterparty_client_id)?;
    let counterparty_connection_id = if counterparty_connection_id.len() == 0 {
        None
    } else {
        Some(ConnectionId::parse(counterparty_connection_id)?)
    };
    Ok(ConnectionEnd {
        client_id,
        state,
        counterparty_client_id,
        counterparty_connection_id,
        delay_period,
    })
}

/// A client state paired with its identifier, as the node serializes it.
#[derive(Debug)]
pub struct RawIdentifiedClientState {
    /// Textual client identifier.
    pub client_id: Vec<u8>,
    /// Opaque serialized client state.
    pub client_state: Vec<u8>,
}

/// The valid subspace of the wire identified-client-state schema.
pub open spec fn raw_identified_client_valid(r: RawIdentifiedClientState) -> bool {
    valid_client_id(r.client_id@)
}

/// A decoded client state paired with its validated identifier.
#[derive(Debug)]
pub struct IdentifiedClientState {
    /// The client the state belongs to.
    pub client_id: ClientId,
    /// Opaque serialized client state, carried intact.
    pub client_state: Vec<u8>,
}

/// The decoded pair carries exactly the fields of the raw one.
pub open spec fn identified_client_matches_raw(
    c: IdentifiedClientState,
    r: RawIdentifiedClientState,
) -> bool {
    &&& c.client_id@ == r.client_id@
    &&& c.client_state@ == r.client_state@
}

/// Decodes one identified client state.  The identifier must be a valid
/// client token; the state bytes are opaque and carried intact.
pub fn decode_identified_client(raw: RawIdentifiedClientState) -> (r: Result<
    IdentifiedClientState,
    QueryError,
>)
    ensures
        r is Ok <==> raw_identified_client_valid(raw),
        r matches Ok(c) ==> identified_client_matches_raw(c, raw) && c.client_id.wf(),
        r matches Err(e) ==> e == QueryError::DecodeError,
{
    let RawIdentifiedClientState { client_id, client_state } = raw;
    let client_id = ClientId::parse(client_id)?;
    Ok(IdentifiedClientState { client_id, client_state })
}

} // verus!
