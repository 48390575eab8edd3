use ibc_query::height::BlockRef;
use ibc_query::ids::{ChannelId, ClientId, ConnectionId, PortId};
use ibc_query::request::{wire_name, Method, WireArg, WireRequest};

fn client() -> ClientId {
    ClientId::parse(b"11-beefy-1".to_vec()).unwrap()
}

fn port() -> PortId {
    PortId::parse(b"ping".to_vec()).unwrap()
}

#[test]
fn wire_names_match_the_remote_interface() {
    assert_eq!(wire_name(Method::ClientConsensusState), "query_client_consensus_state");
    assert_eq!(wire_name(Method::ClientState), "query_client_state");
    assert_eq!(wire_name(Method::Connection), "query_connection");
    assert_eq!(wire_name(Method::Channel), "query_channel");
    assert_eq!(wire_name(Method::Connections), "query_connections");
    assert_eq!(wire_name(Method::Channels), "query_channels");
    assert_eq!(wire_name(Method::Clients), "query_clients");
    assert_eq!(wire_name(Method::ConnectionUsingClient), "query_connection_using_client");
    assert_eq!(wire_name(Method::ConnectionChannels), "query_connection_channels");
    assert_eq!(wire_name(Method::ChannelClient), "query_channel_client");
    assert_eq!(wire_name(Method::Packets), "query_packets");
    assert_eq!(wire_name(Method::PacketCommitment), "query_packet_commitment");
    assert_eq!(wire_name(Method::PacketAcknowledgement), "query_packet_acknowledgement");
    assert_eq!(wire_name(Method::PacketReceipt), "query_packet_receipt");
    assert_eq!(wire_name(Method::NextSeqRecv), "query_next_seq_recv");
    assert_eq!(wire_name(Method::Proof), "query_proof");
    assert_eq!(wire_name(Method::ConnHandshakeProof), "generate_conn_handshake_proof");
    assert_eq!(wire_name(Method::Events), "query_events");
}

fn expect_text(arg: &WireArg, want: &[u8]) {
    match arg {
        WireArg::Text(t) => assert_eq!(t, &want.to_vec()),
        _ => panic!("expected a text argument"),
    }
}

#[test]
fn client_state_request_shape() {
    let r = WireRequest::client_state(30, &client());
    assert_eq!(r.method, Method::ClientState);
    assert_eq!(r.args.len(), 2);
    match &r.args[0] {
        WireArg::Height(h) => assert_eq!(*h, 30),
        _ => panic!("expected a height argument"),
    }
    expect_text(&r.args[1], b"11-beefy-1");
}

#[test]
fn client_consensus_state_request_shape() {
    let r = WireRequest::client_consensus_state(57, &client());
    assert_eq!(r.method, Method::ClientConsensusState);
    assert_eq!(r.args.len(), 5);
    match &r.args[0] {
        WireArg::OptionalHeight(h) => assert_eq!(*h, Some(57)),
        _ => panic!("expected an optional height argument"),
    }
    expect_text(&r.args[1], b"11-beefy-1");
    match (&r.args[2], &r.args[3], &r.args[4]) {
        (WireArg::Number(a), WireArg::Number(b), WireArg::Flag(f)) => {
            assert_eq!(*a, 0);
            assert_eq!(*b, 0);
            assert!(*f);
        },
        _ => panic!("expected two numbers and a flag"),
    }
}

#[test]
fn channel_request_orders_channel_before_port() {
    let chan = ChannelId::from_index(0);
    let r = WireRequest::channel(57, &chan, &port());
    assert_eq!(r.method, Method::Channel);
    assert_eq!(r.args.len(), 3);
    expect_text(&r.args[1], b"channel-0");
    expect_text(&r.args[2], b"ping");
}

#[test]
fn listing_requests_take_no_arguments() {
    assert_eq!(WireRequest::connections().args.len(), 0);
    assert_eq!(WireRequest::channels().args.len(), 0);
    assert_eq!(WireRequest::clients().args.len(), 0);
}

#[test]
fn packets_request_carries_the_sequence_set() {
    let chan = ChannelId::from_index(0);
    let r = WireRequest::packets(&chan, &port(), vec![1, 3]);
    assert_eq!(r.method, Method::Packets);
    assert_eq!(r.args.len(), 3);
    expect_text(&r.args[0], b"channel-0");
    expect_text(&r.args[1], b"ping");
    match &r.args[2] {
        WireArg::NumberList(s) => assert_eq!(s, &vec![1, 3]),
        _ => panic!("expected a sequence list argument"),
    }
}

#[test]
fn packet_commitment_request_shape() {
    let chan = ChannelId::from_index(0);
    let r = WireRequest::packet_commitment(57, &chan, &port(), 1);
    assert_eq!(r.method, Method::PacketCommitment);
    assert_eq!(r.args.len(), 4);
    match &r.args[3] {
        WireArg::Number(s) => assert_eq!(*s, 1),
        _ => panic!("expected a sequence argument"),
    }
}

#[test]
fn conn_handshake_proof_request_shape() {
    let conn = ConnectionId::from_index(0);
    let r = WireRequest::conn_handshake_proof(57, &client(), &conn);
    assert_eq!(r.method, Method::ConnHandshakeProof);
    assert_eq!(r.args.len(), 3);
    expect_text(&r.args[1], b"11-beefy-1");
    expect_text(&r.args[2], b"connection-0");
}

#[test]
fn state_proof_request_carries_the_keys() {
    let r = WireRequest::state_proof(57, vec![b"k1".to_vec(), b"k2".to_vec()]);
    assert_eq!(r.method, Method::Proof);
    match &r.args[1] {
        WireArg::KeyList(keys) => {
            assert_eq!(keys.len(), 2);
            assert_eq!(keys[0], b"k1".to_vec());
            assert_eq!(keys[1], b"k2".to_vec());
        },
        _ => panic!("expected a key list argument"),
    }
}

#[test]
fn events_request_carries_the_block_references() {
    let blocks = vec![BlockRef::Number(1), BlockRef::Number(2), BlockRef::Number(3)];
    let r = WireRequest::events(blocks);
    assert_eq!(r.method, Method::Events);
    assert_eq!(r.args.len(), 1);
    match &r.args[0] {
        WireArg::BlockList(b) => {
            assert_eq!(b.len(), 3);
            match &b[0] {
                BlockRef::Number(n) => assert_eq!(*n, 1),
                _ => panic!("expected a numbered block"),
            }
        },
        _ => panic!("expected a block list argument"),
    }
}
