use ibc_query::codec::{
    decode_channel_end, decode_channel_state, decode_connection_end, decode_connection_state,
    decode_identified_client, decode_ordering, decode_packet, ChannelOrdering, ChannelState,
    ConnectionState, RawChannelEnd, RawConnectionEnd, RawIdentifiedClientState, RawPacket,
};
use ibc_query::errors::QueryError;

fn sample_packet() -> RawPacket {
    RawPacket {
        sequence: 7,
        source_port: b"ping".to_vec(),
        source_channel: b"channel-0".to_vec(),
        destination_port: b"pong".to_vec(),
        destination_channel: b"channel-1".to_vec(),
        data: vec![1, 2, 3],
        timeout_height: 100,
        timeout_timestamp: 0,
        ordering: 1,
    }
}

#[test]
fn valid_packet_decodes_field_for_field() {
    let p = decode_packet(sample_packet()).unwrap();
    assert_eq!(p.sequence, 7);
    assert_eq!(p.source_port.encoded(), &b"ping".to_vec());
    assert_eq!(p.source_channel.encoded(), &b"channel-0".to_vec());
    assert_eq!(p.destination_port.encoded(), &b"pong".to_vec());
    assert_eq!(p.destination_channel.encoded(), &b"channel-1".to_vec());
    assert_eq!(p.data, vec![1, 2, 3]);
    assert_eq!(p.timeout_height, 100);
    assert_eq!(p.timeout_timestamp, 0);
    assert_eq!(p.ordering, ChannelOrdering::Unordered);
}

#[test]
fn out_of_range_ordering_is_a_decode_error() {
    let mut raw = sample_packet();
    raw.ordering = 3;
    assert_eq!(decode_packet(raw).unwrap_err(), QueryError::DecodeError);
    let mut raw = sample_packet();
    raw.ordering = 0;
    assert_eq!(decode_packet(raw).unwrap_err(), QueryError::DecodeError);
}

#[test]
fn packet_without_any_timeout_is_a_decode_error() {
    let mut raw = sample_packet();
    raw.timeout_height = 0;
    raw.timeout_timestamp = 0;
    assert_eq!(decode_packet(raw).unwrap_err(), QueryError::DecodeError);
}

#[test]
fn packet_with_bad_channel_token_is_a_decode_error() {
    let mut raw = sample_packet();
    raw.source_channel = b"ch!".to_vec();
    assert_eq!(decode_packet(raw).unwrap_err(), QueryError::DecodeError);
}

#[test]
fn ordering_values_decode_exactly() {
    assert_eq!(decode_ordering(1).unwrap(), ChannelOrdering::Unordered);
    assert_eq!(decode_ordering(2).unwrap(), ChannelOrdering::Ordered);
    assert_eq!(decode_ordering(0).unwrap_err(), QueryError::DecodeError);
    assert_eq!(decode_ordering(5).unwrap_err(), QueryError::DecodeError);
}

#[test]
fn channel_states_decode_exactly() {
    assert_eq!(decode_channel_state(1).unwrap(), ChannelState::Init);
    assert_eq!(decode_channel_state(2).unwrap(), ChannelState::TryOpen);
    assert_eq!(decode_channel_state(3).unwrap(), ChannelState::Open);
    assert_eq!(decode_channel_state(4).unwrap(), ChannelState::Closed);
    assert_eq!(decode_channel_state(0).unwrap_err(), QueryError::DecodeError);
    assert_eq!(decode_channel_state(5).unwrap_err(), QueryError::DecodeError);
}

#[test]
fn connection_states_decode_exactly() {
    assert_eq!(decode_connection_state(1).unwrap(), ConnectionState::Init);
    assert_eq!(decode_connection_state(2).unwrap(), ConnectionState::TryOpen);
    assert_eq!(decode_connection_state(3).unwrap(), ConnectionState::Open);
    assert_eq!(decode_connection_state(4).unwrap_err(), QueryError::DecodeError);
}

fn sample_channel_end() -> RawChannelEnd {
    RawChannelEnd {
        state: 3,
        ordering: 2,
        counterparty_port_id: b"transfer".to_vec(),
        counterparty_channel_id: b"channel-9".to_vec(),
        connection_hops: vec![b"connection-0".to_vec(), b"connection-1".to_vec()],
        version: b"ics20-1".to_vec(),
    }
}

#[test]
fn channel_end_decodes_with_hops_in_order() {
    let c = decode_channel_end(sample_channel_end()).unwrap();
    assert_eq!(c.state, ChannelState::Open);
    assert_eq!(c.ordering, ChannelOrdering::Ordered);
    assert_eq!(c.counterparty_port_id.encoded(), &b"transfer".to_vec());
    assert_eq!(
        c.counterparty_channel_id.unwrap().encoded(),
        &b"channel-9".to_vec()
    );
    assert_eq!(c.connection_hops.len(), 2);
    assert_eq!(c.connection_hops[0].encoded(), &b"connection-0".to_vec());
    assert_eq!(c.connection_hops[1].encoded(), &b"connection-1".to_vec());
    assert_eq!(c.version, b"ics20-1".to_vec());
}

#[test]
fn channel_end_empty_counterparty_channel_decodes_to_none() {
    let mut raw = sample_channel_end();
    raw.counterparty_channel_id = Vec::new();
    let c = decode_channel_end(raw).unwrap();
    assert!(c.counterparty_channel_id.is_none());
}

#[test]
fn channel_end_with_bad_hop_is_a_decode_error() {
    let mut raw = sample_channel_end();
    raw.connection_hops = vec![b"connection-0".to_vec(), b"bad".to_vec()];
    assert_eq!(decode_channel_end(raw).unwrap_err(), QueryError::DecodeError);
}

#[test]
fn channel_end_with_bad_state_is_a_decode_error() {
    let mut raw = sample_channel_end();
    raw.state = 9;
    assert_eq!(decode_channel_end(raw).unwrap_err(), QueryError::DecodeError);
}

fn sample_connection_end() -> RawConnectionEnd {
    RawConnectionEnd {
        client_id: b"11-beefy-1".to_vec(),
        state: 3,
        counterparty_client_id: b"07-tendermint-3".to_vec(),
        counterparty_connection_id: b"connection-4".to_vec(),
        delay_period: 5_000_000_000,
    }
}

#[test]
fn connection_end_decodes_field_for_field() {
    let c = decode_connection_end(sample_connection_end()).unwrap();
    assert_eq!(c.client_id.encoded(), &b"11-beefy-1".to_vec());
    assert_eq!(c.state, ConnectionState::Open);
    assert_eq!(
        c.counterparty_client_id.encoded(),
        &b"07-tendermint-3".to_vec()
    );
    assert_eq!(
        c.counterparty_connection_id.unwrap().encoded(),
        &b"connection-4".to_vec()
    );
    assert_eq!(c.delay_period, 5_000_000_000);
}

#[test]
fn connection_end_with_bad_client_is_a_decode_error() {
    let mut raw = sample_connection_end();
    raw.client_id = b"nope".to_vec();
    assert_eq!(
        decode_connection_end(raw).unwrap_err(),
        QueryError::DecodeError
    );
}

#[test]
fn identified_client_state_keeps_its_bytes() {
    let raw = RawIdentifiedClientState {
        client_id: b"11-beefy-1".to_vec(),
        client_state: vec![9, 9, 9],
    };
    let c = decode_identified_client(raw).unwrap();
    assert_eq!(c.client_id.encoded(), &b"11-beefy-1".to_vec());
    assert_eq!(c.client_state, vec![9, 9, 9]);
}

#[test]
fn channel_end_with_no_hops_decodes() {
    let mut raw = sample_channel_end();
    raw.connection_hops = Vec::new();
    let c = decode_channel_end(raw).unwrap();
    assert_eq!(c.connection_hops.len(), 0);
}
