//! The packet batch query.
//!
//! A caller asks for several sequence numbers of one `(port, channel)`
//! pair at once.  The node replies with the packets it can resolve; the
//! batch result then associates every requested sequence with its own
//! outcome.  One unresolvable or undecodable sequence never corrupts or
//! drops its siblings, and never fails the batch as a whole.

use vstd::prelude::*;

use crate::codec::{decode_packet, packet_matches_raw, raw_packet_valid, Packet, RawPacket};
use crate::dispatch::RpcOutcome;
use crate::errors::QueryError;

verus! {

/// The index of the first reply carrying `seq`, scanning from `i` on.
pub open spec fn find_from(replies: Seq<RawPacket>, seq: u64, i: int) -> Option<int>
    decreases replies.len() - i,
{
    if i < 0 || i >= replies.len() {
        None
    } else if replies[i].sequence == seq {
        Some(i)
    } else {
        find_from(replies, seq, i + 1)
    }
}

/// One requested sequence number with its own outcome.
#[derive(Debug)]
pub struct PacketQueryItem {
    /// The sequence number the caller asked for.
    pub sequence: u64,
    /// The packet, a `NotFound` when the node did not resolve the
    /// sequence, or a `DecodeError` when the reply for it was malformed.
    pub outcome: Result<Packet, QueryError>,
}

/// The exact outcome owed for one requested sequence: the first reply
/// carrying it decides, and no reply at all means `NotFound`.
pub open spec fn item_ok(item: PacketQueryItem, replies: Seq<RawPacket>, seq: u64) -> bool {
    &&& item.sequence == seq
    &&& match find_from(replies, seq, 0) {
        None => item.outcome matches Err(e) && e == QueryError::NotFound,
        Some(j) => {
            &&& (item.outcome is Ok <==> raw_packet_valid(replies[j]))
            &&& (item.outcome matches Ok(p) ==> packet_matches_raw(p, replies[j]))
            &&& (item.outcome matches Err(e) ==> e == QueryError::DecodeError)
        },
    }
}

/// Finds the first reply carrying `seq`.
#[verifier::loop_isolation(false)]
fn scan_replies(replies: &Vec<RawPacket>, seq: u64) -> (r: Option<usize>)
    ensures
        match r {
            Some(i) => i < replies@.len() && find_from(replies@, seq, 0) == Some(i as int),
            None => find_from(replies@, seq, 0) is None,
        },
{
    let mut i: usize = 0;
    while i < replies.len()
        invariant
            0 <= i <= replies@.len(),
            find_from(replies@, seq, 0) == find_from(replies@, seq, i as int),
        decreases replies@.len() - i,
    {
        if replies[i].sequence == seq {
            return Some(i);
        }
        i = i + 1;
    }
    None
}

/// Copies one raw packet field for field.
fn copy_raw_packet(p: &RawPacket) -> (r: RawPacket)
    ensures
        r.sequence == p.sequence,
        r.source_port@ == p.source_port@,
        r.source_channel@ == p.source_channel@,
        r.destination_port@ == p.destination_port@,
        r.destination_channel@ == p.destination_channel@,
        r.data@ == p.data@,
        r.timeout_height == p.timeout_height,
        r.timeout_timestamp == p.timeout_timestamp,
        r.ordering == p.ordering,
{
    let source_port = p.source_port.clone();
    let source_channel = p.source_channel.clone();
    let destination_port = p.destination_port.clone();
    let destination_channel = p.destination_channel.clone();
    let data = p.data.clone();
    proof {
        assert(source_port@ =~= p.source_port@);
        assert(source_channel@ =~= p.source_channel@);
        assert(destination_port@ =~= p.destination_port@);
        assert(destination_channel@ =~= p.destination_channel@);
        assert(data@ =~= p.data@);
    }
    RawPacket {
        sequence: p.sequence,
        source_port,
        source_channel,
        destination_port,
        destination_channel,
        data,
        timeout_height: p.timeout_height,
        timeout_timestamp: p.timeout_timestamp,
        ordering: p.ordering,
    }
}

/// Associates every requested sequence with its own outcome, in the
/// caller's order: the first matching reply decoded, or a per-item
/// `NotFound` when no reply carries the sequence.
#[verifier::loop_isolation(false)]
pub fn associate_packets(requested: &Vec<u64>, replies: &Vec<RawPacket>) -> (r: Vec<
    PacketQueryItem,
>)
    ensures
        r@.len() == requested@.len(),
        forall|i: int|
            0 <= i < requested@.len() ==> item_ok(#[trigger] r@[i], replies@, requested@[i]),
{
    let mut out: Vec<PacketQueryItem> = Vec::new();
    let mut i: usize = 0;
    while i < requested.len()
        invariant
            0 <= i <= requested@.len(),
            out@.len() == i,
            forall|j: int| 0 <= j < i ==> item_ok(#[trigger] out@[j], replies@, requested@[j]),
        decreases requested@.len() - i,
    {
        let seq = requested[i];
        let outcome: Result<Packet, QueryError> = match scan_replies(replies, seq) {
            None => Err(QueryError::NotFound),
            Some(k) => {
                let raw = copy_raw_packet(&replies[k]);
                proof {
                    assert(raw_packet_valid(raw) == raw_packet_valid(replies@[k as int]));
                }
                match decode_packet(raw) {
                    Ok(p) => Ok(p),
                    Err(e) => Err(e),
                }
            },
        };
        out.push(PacketQueryItem { sequence: seq, outcome });
        i = i + 1;
    }
    out
}

/// Decodes a packets query outcome: on a reply, every requested sequence
/// is associated with its own outcome, so one bad or missing sequence is
/// never a whole-batch failure.
pub fn packets_response(requested: &Vec<u64>, outcome: RpcOutcome<Vec<RawPacket>>) -> (r: Result<
    Vec<PacketQueryItem>,
    QueryError,
>)
    ensures
        outcome is NotFound ==> (r matches Err(e) && e == QueryError::NotFound),
        outcome is Unavailable ==> (r matches Err(e) && e == QueryError::Unavailable),
        outcome is TransportFailure ==> (r matches Err(e) && e == QueryError::TransportFailure),
        outcome matches RpcOutcome::Reply(raw) ==> (r matches Ok(items) && items@.len()
            == requested@.len() && (forall|i: int|
            0 <= i < requested@.len() ==> item_ok(#[trigger] items@[i], raw@, requested@[i]))),
{
    match outcome {
        RpcOutcome::Reply(raw) => Ok(associate_packets(requested, &raw)),
        RpcOutcome::NotFound => Err(QueryError::NotFound),
        RpcOutcome::Unavailable => Err(QueryError::Unavailable),
        RpcOutcome::TransportFailure => Err(QueryError::TransportFailure),
    }
}

} // verus!
