//! The request-building half of the query dispatcher.
//!
//! For each domain query intent there is one builder that produces the
//! wire request: the remote operation's name and its ordered argument
//! list.  Argument encoding is always the canonical textual identifier
//! representation; the ordering and shape per query kind is fixed and must
//! match exactly what the remote interface expects.  Builders are pure:
//! sending the request is the transport's business, not theirs.

use vstd::prelude::*;

use crate::height::BlockRef;
use crate::ids::{ChannelId, ClientId, ConnectionId, PortId};

verus! {

/// The name of one remote operation.
#[derive(Clone, Copy, Debug, PartialEq, Eq, Structural)]
pub enum Method {
    /// Consensus state of a client at a height.
    ClientConsensusState,
    /// Client state of a client.
    ClientState,
    /// One connection end.
    Connection,
    /// One channel end.
    Channel,
    /// Every connection end the node knows.
    Connections,
    /// Every channel end the node knows.
    Channels,
    /// Every client the node knows, with its state.
    Clients,
    /// Connection ends referencing one client.
    ConnectionUsingClient,
    /// Channel ends travelling over one connection.
    ConnectionChannels,
    /// The client backing one channel's connection.
    ChannelClient,
    /// Packets of a channel, by sequence numbers.
    Packets,
    /// Commitment bytes of one packet.
    PacketCommitment,
    /// Acknowledgement bytes of one packet.
    PacketAcknowledgement,
    /// Receipt presence of one packet.
    PacketReceipt,
    /// Next sequence number the channel expects to receive.
    NextSeqRecv,
    /// Inclusion proof for a set of storage keys.
    Proof,
    /// Client and connection state with proofs, for a handshake.
    ConnHandshakeProof,
    /// Events deposited in a set of blocks.
    Events,
}

/// The operation name on the wire for each method.
pub open spec fn wire_name_spec(m: Method) -> Seq<char> {
    match m {
        Method::ClientConsensusState => "query_client_consensus_state"@,
        Method::ClientState => "query_client_state"@,
        Method::Connection => "query_connection"@,
        Method::Channel => "query_channel"@,
        Method::Connections => "query_connections"@,
        Method::Channels => "query_channels"@,
        Method::Clients => "query_clients"@,
        Method::ConnectionUsingClient => "query_connection_using_client"@,
        Method::ConnectionChannels => "query_connection_channels"@,
        Method::ChannelClient => "query_channel_client"@,
        Method::Packets => "query_packets"@,
        Method::PacketCommitment => "query_packet_commitment"@,
        Method::PacketAcknowledgement => "query_packet_acknowledgement"@,
        Method::PacketReceipt => "query_packet_receipt"@,
        Method::NextSeqRecv => "query_next_seq_recv"@,
        Method::Proof => "query_proof"@,
        Method::ConnHandshakeProof => "generate_conn_handshake_proof"@,
        Method::Events => "query_events"@,
    }
}

/// The operation name on the wire, verbatim.
pub fn wire_name(m: Method) -> (r: &'static str)
    ensures
        r@ == wire_name_spec(m),
{
    match m {
        Method::ClientConsensusState => "query_client_consensus_state",
        Method::ClientState => "query_client_state",
        Method::Connection => "query_connection",
        Method::Channel => "query_channel",
        Method::Connections => "query_connections",
        Method::Channels => "query_channels",
        Method::Clients => "query_clients",
        Method::ConnectionUsingClient => "query_connection_using_client",
        Method::ConnectionChannels => "query_connection_channels",
        Method::ChannelClient => "query_channel_client",
        Method::Packets => "query_packets",
        Method::PacketCommitment => "query_packet_commitment",
        Method::PacketAcknowledgement => "query_packet_acknowledgement",
        Method::PacketReceipt => "query_packet_receipt",
        Method::NextSeqRecv => "query_next_seq_recv",
        Method::Proof => "query_proof",
        Method::ConnHandshakeProof => "generate_conn_handshake_proof",
        Method::Events => "query_events",
    }
}

/// One positional argument of a wire request.
#[derive(Debug)]
pub enum WireArg {
    /// A block height.
    Height(u32),
    /// A block height that the node may also pick itself.
    OptionalHeight(Option<u32>),
    /// A canonical identifier encoding, verbatim.
    Text(Vec<u8>),
    /// A bare number (a sequence number or a revision part).
    Number(u64),
    /// A set of sequence numbers, in the caller's order.
    NumberList(Vec<u64>),
    /// A set of storage keys, in the caller's order.
    KeyList(Vec<Vec<u8>>),
    /// A boolean flag.
    Flag(bool),
    /// A set of block references, in the caller's order.
    BlockList(Vec<BlockRef>),
}

/// One wire request: the operation to invoke and its ordered arguments.
#[derive(Debug)]
pub struct WireRequest {
    /// Which remote operation to invoke.
    pub method: Method,
    /// The positional arguments, in wire order.
    pub args: Vec<WireArg>,
}

/// Copies a byte string.
fn copy_bytes(v: &Vec<u8>) -> (r: Vec<u8>)
    ensures
        r@ == v@,
{
    let r = v.clone();
    proof {
        assert(r@ =~= v@);
    }
    r
}

impl WireRequest {
    /// Consensus state of `client_id` at height `at`.  The two trailing
    /// numbers are the consensus height's revision parts, zero here, and
    /// the flag asks for the latest consensus state at that height.
    pub fn client_consensus_state(at: u32, client_id: &ClientId) -> (r: WireRequest)
        ensures
            r.method == Method::ClientConsensusState,
            r.args@.len() == 5,
            r.args@[0] == WireArg::OptionalHeight(Some(at)),
            r.args@[1] is Text && r.args@[1]->Text_0@ == client_id@,
            r.args@[2] == WireArg::Number(0u64),
            r.args@[3] == WireArg::Number(0u64),
            r.args@[4] == WireArg::Flag(true),
    {
        let mut args: Vec<WireArg> = Vec::new();
        args.push(WireArg::OptionalHeight(Some(at)));
        args.push(WireArg::Text(copy_bytes(client_id.encoded())));
        args.push(WireArg::Number(0));
        args.push(WireArg::Number(0));
        args.push(WireArg::Flag(true));
        WireRequest { method: Method::ClientConsensusState, args }
    }

    /// Client state of `client_id` as observed at height `at`.
    pub fn client_state(at: u32, client_id: &ClientId) -> (r: WireRequest)
        ensures
            r.method == Method::ClientState,
            r.args@.len() == 2,
            r.args@[0] == WireArg::Height(at),
            r.args@[1] is Text && r.args@[1]->Text_0@ == client_id@,
    {
        let mut args: Vec<WireArg> = Vec::new();
        args.push(WireArg::Height(at));
        args.push(WireArg::Text(copy_bytes(client_id.encoded())));
        WireRequest { method: Method::ClientState, args }
    }

    /// The connection end `connection_id` as observed at height `at`.
    pub fn connection(at: u32, connection_id: &ConnectionId) -> (r: WireRequest)
        ensures
            r.method == Method::Connection,
            r.args@.len() == 2,
            r.args@[0] == WireArg::Height(at),
            r.args@[1] is Text && r.args@[1]->Text_0@ == connection_id@,
    {
        let mut args: Vec<WireArg> = Vec::new();
        args.push(WireArg::Height(at));
        args.push(WireArg::Text(copy_bytes(connection_id.encoded())));
        WireRequest { method: Method::Connection, args }
    }

    /// The channel end `(channel_id, port_id)` as observed at height `at`.
    pub fn channel(at: u32, channel_id: &ChannelId, port_id: &PortId) -> (r: WireRequest)
        ensures
            r.method == Method::Channel,
            r.args@.len() == 3,
            r.args@[0] == WireArg::Height(at),
            r.args@[1] is Text && r.args@[1]->Text_0@ == channel_id@,
            r.args@[2] is Text && r.args@[2]->Text_0@ == port_id@,
    {
        let mut args: Vec<WireArg> = Vec::new();
        args.push(WireArg::Height(at));
        args.push(WireArg::Text(copy_bytes(channel_id.encoded())));
        args.push(WireArg::Text(copy_bytes(port_id.encoded())));
        WireRequest { method: Method::Channel, args }
    }

    /// Every connection end the node knows.
    pub fn connections() -> (r: WireRequest)
        ensures
            r.method == Method::Connections,
            r.args@.len() == 0,
    {
        WireRequest { method: Method::Connections, args: Vec::new() }
    }

    /// Every channel end the node knows.
    pub fn channels() -> (r: WireRequest)
        ensures
            r.method == Method::Channels,
            r.args@.len() == 0,
    {
        WireRequest { method: Method::Channels, args: Vec::new() }
    }

    /// Every client the node knows, with its state.
    pub fn clients() -> (r: WireRequest)
        ensures
            r.method == Method::Clients,
            r.args@.len() == 0,
    {
        WireRequest { method: Method::Clients, args: Vec::new() }
    }

    /// Client state, connection end and their proofs, all anchored at
    /// height `at`, for the connection handshake.
    pub fn conn_handshake_proof(at: u32, client_id: &ClientId, connection_id: &ConnectionId) -> (r:
        WireRequest)
        ensures
            r.method == Method::ConnHandshakeProof,
            r.args@.len() == 3,
            r.args@[0] == WireArg::Height(at),
            r.args@[1] is Text && r.args@[1]->Text_0@ == client_id@,
            r.args@[2] is Text && r.args@[2]->Text_0@ == connection_id@,
    {
        let mut args: Vec<WireArg> = Vec::new();
        args.push(WireArg::Height(at));
        args.push(WireArg::Text(copy_bytes(client_id.encoded())));
        args.push(WireArg::Text(copy_bytes(connection_id.encoded())));
        WireRequest { method: Method::ConnHandshakeProof, args }
    }

    /// Connection ends referencing `client_id`, as observed at height `at`.
    pub fn connections_using_client(at: u32, client_id: &ClientId) -> (r: WireRequest)
        ensures
            r.method == Method::ConnectionUsingClient,
            r.args@.len() == 2,
            r.args@[0] == WireArg::Height(at),
            r.args@[1] is Text && r.args@[1]->Text_0@ == client_id@,
    {
        let mut args: Vec<WireArg> = Vec::new();
        args.push(WireArg::Height(at));
        args.push(WireArg::Text(copy_bytes(client_id.encoded())));
        WireRequest { method: Method::ConnectionUsingClient, args }
    }

    /// Channel ends travelling over `connection_id`, as observed at `at`.
    pub fn connection_channels(at: u32, connection_id: &ConnectionId) -> (r: WireRequest)
        ensures
            r.method == Method::ConnectionChannels,
            r.args@.len() == 2,
            r.args@[0] == WireArg::Height(at),
            r.args@[1] is Text && r.args@[1]->Text_0@ == connection_id@,
    {
        let mut args: Vec<WireArg> = Vec::new();
        args.push(WireArg::Height(at));
        args.push(WireArg::Text(copy_bytes(connection_id.encoded())));
        WireRequest { method: Method::ConnectionChannels, args }
    }

    /// The client backing the connection of `(channel_id, port_id)`.
    pub fn channel_client(at: u32, channel_id: &ChannelId, port_id: &PortId) -> (r: WireRequest)
        ensures
            r.method == Method::ChannelClient,
            r.args@.len() == 3,
            r.args@[0] == WireArg::Height(at),
            r.args@[1] is Text && r.args@[1]->Text_0@ == channel_id@,
            r.args@[2] is Text && r.args@[2]->Text_0@ == port_id@,
    {
        let mut args: Vec<WireArg> = Vec::new();
        args.push(WireArg::Height(at));
        args.push(WireArg::Text(copy_bytes(channel_id.encoded())));
        args.push(WireArg::Text(copy_bytes(port_id.encoded())));
        WireRequest { method: Method::ChannelClient, args }
    }

    /// Inclusion proof for `keys`, anchored at height `at`.
    pub fn state_proof(at: u32, keys: Vec<Vec<u8>>) -> (r: WireRequest)
        ensures
            r.method == Method::Proof,
            r.args@.len() == 2,
            r.args@[0] == WireArg::Height(at),
            r.args@[1] is KeyList && r.args@[1]->KeyList_0@ == keys@,
    {
        let mut args: Vec<WireArg> = Vec::new();
        args.push(WireArg::Height(at));
        args.push(WireArg::KeyList(keys));
        WireRequest { method: Method::Proof, args }
    }

    /// The packets of `(channel_id, port_id)` with the given sequence
    /// numbers; each sequence is resolved independently by the node.
    pub fn packets(channel_id: &ChannelId, port_id: &PortId, sequences: Vec<u64>) -> (r:
        WireRequest)
        ensures
            r.method == Method::Packets,
            r.args@.len() == 3,
            r.args@[0] is Text && r.args@[0]->Text_0@ == channel_id@,
            r.args@[1] is Text && r.args@[1]->Text_0@ == port_id@,
            r.args@[2] is NumberList && r.args@[2]->NumberList_0@ == sequences@,
    {
        let mut args: Vec<WireArg> = Vec::new();
        args.push(WireArg::Text(copy_bytes(channel_id.encoded())));
        args.push(WireArg::Text(copy_bytes(port_id.encoded())));
        args.push(WireArg::NumberList(sequences));
        WireRequest { method: Method::Packets, args }
    }

    /// Commitment bytes of packet `sequence` on `(channel_id, port_id)`.
    pub fn packet_commitment(
        at: u32,
        channel_id: &ChannelId,
        port_id: &PortId,
        sequence: u64,
    ) -> (r: WireRequest)
        ensures
            r.method == Method::PacketCommitment,
            r.args@.len() == 4,
            r.args@[0] == WireArg::Height(at),
            r.args@[1] is Text && r.args@[1]->Text_0@ == channel_id@,
            r.args@[2] is Text && r.args@[2]->Text_0@ == port_id@,
            r.args@[3] == WireArg::Number(sequence),
    {
        let mut args: Vec<WireArg> = Vec::new();
        args.push(WireArg::Height(at));
        args.push(WireArg::Text(copy_bytes(channel_id.encoded())));
        args.push(WireArg::Text(copy_bytes(port_id.encoded())));
        args.push(WireArg::Number(sequence));
        WireRequest { method: Method::PacketCommitment, args }
    }

    /// Acknowledgement bytes of packet `sequence` on `(channel_id, port_id)`.
    pub fn packet_acknowledgement(
        at: u32,
        channel_id: &ChannelId,
        port_id: &PortId,
        sequence: u64,
    ) -> (r: WireRequest)
        ensures
            r.method == Method::PacketAcknowledgement,
            r.args@.len() == 4,
            r.args@[0] == WireArg::Height(at),
            r.args@[1] is Text && r.args@[1]->Text_0@ == channel_id@,
            r.args@[2] is Text && r.args@[2]->Text_0@ == port_id@,
            r.args@[3] == WireArg::Number(sequence),
    {
        let mut args: Vec<WireArg> = Vec::new();
        args.push(WireArg::Height(at));
        args.push(WireArg::Text(copy_bytes(channel_id.encoded())));
        args.push(WireArg::Text(copy_bytes(port_id.encoded())));
        args.push(WireArg::Number(sequence));
        WireRequest { method: Method::PacketAcknowledgement, args }
    }

    /// Receipt presence of packet `sequence` on `(channel_id, port_id)`.
    pub fn packet_receipt(at: u32, channel_id: &ChannelId, port_id: &PortId, sequence: u64) -> (r:
        WireRequest)
        ensures
            r.method == Method::PacketReceipt,
            r.args@.len() == 4,
            r.args@[0] == WireArg::Height(at),
            r.args@[1] is Text && r.args@[1]->Text_0@ == channel_id@,
            r.args@[2] is Text && r.args@[2]->Text_0@ == port_id@,
            r.args@[3] == WireArg::Number(sequence),
    {
        let mut args: Vec<WireArg> = Vec::new();
        args.push(WireArg::Height(at));
        args.push(WireArg::Text(copy_bytes(channel_id.encoded())));
        args.push(WireArg::Text(copy_bytes(port_id.encoded())));
        args.push(WireArg::Number(sequence));
        WireRequest { method: Method::PacketReceipt, args }
    }

    /// The next sequence number `(channel_id, port_id)` expects to receive.
    pub fn next_seq_recv(at: u32, channel_id: &ChannelId, port_id: &PortId) -> (r: WireRequest)
        ensures
            r.method == Method::NextSeqRecv,
            r.args@.len() == 3,
            r.args@[0] == WireArg::Height(at),
            r.args@[1] is Text && r.args@[1]->Text_0@ == channel_id@,
            r.args@[2] is Text && r.args@[2]->Text_0@ == port_id@,
    {
        let mut args: Vec<WireArg> = Vec::new();
        args.push(WireArg::Height(at));
        args.push(WireArg::Text(copy_bytes(channel_id.encoded())));
        args.push(WireArg::Text(copy_bytes(port_id.encoded())));
        WireRequest { method: Method::NextSeqRecv, args }
    }

    /// The events deposited in each of the given blocks.
    pub fn events(blocks: Vec<BlockRef>) -> (r: WireRequest)
        ensures
            r.method == Method::Events,
            r.args@.len() == 1,
            r.args@[0] is BlockList && r.args@[0]->BlockList_0@ == blocks@,
    {
        let mut args: Vec<WireArg> = Vec::new();
        args.push(WireArg::BlockList(blocks));
        WireRequest { method: Method::Events, args }
    }
}

} // verus!
