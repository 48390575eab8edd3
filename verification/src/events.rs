//! The event aggregator.
//!
//! Given the per-block event lists the node returned for a set of block
//! references, the aggregator flattens them into one sequence.  Blocks
//! with no events contribute nothing; a block the node does not know is
//! marked missing and yields a `NotFound` for that reference, which the
//! caller may skip or escalate.  No ordering is imposed across blocks
//! beyond the arrival order of the per-block lists; within one block the
//! node's own event order is kept.

use vstd::prelude::*;

use crate::dispatch::RpcOutcome;
use crate::errors::QueryError;
use crate::height::BlockRef;

verus! {

/// A protocol lifecycle notification.
#[derive(Clone, Copy, Debug, PartialEq, Eq, Structural)]
pub enum EventKind {
    /// A light client was created.
    CreateClient,
    /// A light client was updated.
    UpdateClient,
    /// A connection handshake was started.
    OpenInitConnection,
    /// A connection handshake was completed.
    OpenConfirmConnection,
    /// A channel handshake was started.
    OpenInitChannel,
    /// A channel handshake was completed.
    OpenConfirmChannel,
    /// A channel was closed.
    CloseChannel,
    /// A packet was sent.
    SendPacket,
    /// A packet was received.
    ReceivePacket,
    /// An acknowledgement was written for a received packet.
    WriteAcknowledgement,
    /// A sent packet was acknowledged.
    AcknowledgePacket,
    /// A sent packet timed out.
    TimeoutPacket,
}

/// One event, tagged with the height of the block it was observed in.
#[derive(Clone, Copy, Debug, PartialEq, Eq, Structural)]
pub struct Event {
    /// What happened.
    pub kind: EventKind,
    /// Number of the block the event was deposited in.
    pub height: u32,
}

/// The node's answer for one requested block reference.
#[derive(Debug)]
pub struct BlockEvents {
    /// The block the answer is about.
    pub block: BlockRef,
    /// Whether the node knows the block at all.
    pub found: bool,
    /// The events deposited in the block, in the block's own order;
    /// empty when the block is missing or simply held no events.
    pub events: Vec<Event>,
}

/// The flattened event sequence: per-block lists concatenated in arrival
/// order, missing blocks contributing nothing.
pub open spec fn flattened(blocks: Seq<BlockEvents>) -> Seq<Event>
    decreases blocks.len(),
{
    if blocks.len() == 0 {
        Seq::empty()
    } else {
        flattened(blocks.drop_last()) + (if blocks.last().found {
            blocks.last().events@
        } else {
            Seq::empty()
        })
    }
}

/// Flattens the per-block event lists into one sequence.  Each found
/// block contributes its events in their own order; blocks follow one
/// another in arrival order; missing and empty blocks contribute nothing.
#[verifier::loop_isolation(false)]
pub fn flatten_events(blocks: &Vec<BlockEvents>) -> (r: Vec<Event>)
    ensures
        r@ == flattened(blocks@),
{
    let mut out: Vec<Event> = Vec::new();
    let mut i: usize = 0;
    while i < blocks.len()
        invariant
            0 <= i <= blocks@.len(),
            out@ == flattened(blocks@.take(i as int)),
        decreases blocks@.len() - i,
    {
        if blocks[i].found {
            let mut j: usize = 0;
            while j < blocks[i].events.len()
                invariant
                    0 <= i < blocks@.len(),
                    0 <= j <= blocks@[i as int].events@.len(),
                    blocks@[i as int].found,
                    out@ == flattened(blocks@.take(i as int)) + blocks@[i as int].events@.take(
                        j as int,
                    ),
                decreases blocks@[i as int].events@.len() - j,
            {
                out.push(blocks[i].events[j]);
                proof {
                    assert(blocks@[i as int].events@.take(j + 1) =~= blocks@[
                        i as int
                    ].events@.take(j as int).push(blocks@[i as int].events@[j as int]));
                }
                j = j + 1;
            }
            proof {
                assert(blocks@.take(i + 1).drop_last() =~= blocks@.take(i as int));
                assert(blocks@.take(i + 1).last() == blocks@[i as int]);
                assert(blocks@[i as int].events@.take(blocks@[i as int].events@.len() as int)
                    =~= blocks@[i as int].events@);
            }
        } else {
            proof {
                assert(blocks@.take(i + 1).drop_last() =~= blocks@.take(i as int));
                assert(blocks@.take(i + 1).last() == blocks@[i as int]);
                assert(out@ =~= flattened(blocks@.take(i + 1)));
            }
        }
        i = i + 1;
    }
    proof {
        assert(blocks@.take(blocks@.len() as int) =~= blocks@);
    }
    out
}

/// Aggregation keeps each block's own event list intact: in the
/// flattened sequence, the events of one found block stand contiguously,
/// in the block's own order, right after everything contributed by the
/// blocks before it.
pub proof fn lemma_block_events_kept(blocks: Seq<BlockEvents>, i: int)
    requires
        0 <= i < blocks.len(),
        blocks[i].found,
    ensures
        flattened(blocks.take(i)).len() + blocks[i].events@.len() <= flattened(blocks).len(),
        flattened(blocks).subrange(
            flattened(blocks.take(i)).len() as int,
            flattened(blocks.take(i)).len() + blocks[i].events@.len() as int,
        ) == blocks[i].events@,
    decreases blocks.len(),
{
    let off = flattened(blocks.take(i)).len() as int;
    let n = blocks[i].events@.len() as int;
    if i == blocks.len() - 1 {
        assert(blocks.take(i) =~= blocks.drop_last());
        assert(flattened(blocks).subrange(off, off + n) =~= blocks[i].events@);
    } else {
        let dl = blocks.drop_last();
        assert(blocks.take(i) =~= dl.take(i));
        lemma_block_events_kept(dl, i);
        assert(flattened(blocks).subrange(off, off + n) =~= flattened(dl).subrange(off, off + n));
    }
}

/// Whether every requested block was known to the node.
pub fn all_blocks_found(blocks: &Vec<BlockEvents>) -> (r: bool)
    ensures
        r == forall|i: int| 0 <= i < blocks@.len() ==> (#[trigger] blocks@[i]).found,
{
    let mut i: usize = 0;
    while i < blocks.len()
        invariant
            0 <= i <= blocks@.len(),
            forall|j: int| 0 <= j < i ==> (#[trigger] blocks@[j]).found,
        decreases blocks@.len() - i,
    {
        if !blocks[i].found {
            return false;
        }
        i = i + 1;
    }
    true
}

/// Decodes an events query outcome leniently: missing blocks are skipped,
/// every block the node knows contributes its events in order.
pub fn events_response(outcome: RpcOutcome<Vec<BlockEvents>>) -> (r: Result<
    Vec<Event>,
    QueryError,
>)
    ensures
        outcome is NotFound ==> (r matches Err(e) && e == QueryError::NotFound),
        outcome is Unavailable ==> (r matches Err(e) && e == QueryError::Unavailable),
        outcome is TransportFailure ==> (r matches Err(e) && e == QueryError::TransportFailure),
        outcome matches RpcOutcome::Reply(raw) ==> (r matches Ok(list) && list@ == flattened(
            raw@,
        )),
{
    match outcome {
        RpcOutcome::Reply(raw) => Ok(flatten_events(&raw)),
        RpcOutcome::NotFound => Err(QueryError::NotFound),
        RpcOutcome::Unavailable => Err(QueryError::Unavailable),
        RpcOutcome::TransportFailure => Err(QueryError::TransportFailure),
    }
}

/// Decodes an events query outcome strictly: one missing block reference
/// escalates to a `NotFound` for the whole aggregation.
pub fn events_response_strict(outcome: RpcOutcome<Vec<BlockEvents>>) -> (r: Result<
    Vec<Event>,
    QueryError,
>)
    ensures
        outcome is NotFound ==> (r matches Err(e) && e == QueryError::NotFound),
        outcome is Unavailable ==> (r matches Err(e) && e == QueryError::Unavailable),
        outcome is TransportFailure ==> (r matches Err(e) && e == QueryError::TransportFailure),
        outcome matches RpcOutcome::Reply(raw) ==> {
            &&& (r is Ok <==> (forall|i: int|
                0 <= i < raw@.len() ==> (#[trigger] raw@[i]).found))
            &&& (r matches Ok(list) ==> list@ == flattened(raw@))
            &&& (r matches Err(e) ==> e == QueryError::NotFound)
        },
{
    match outcome {
        RpcOutcome::Reply(raw) => {
            if all_blocks_found(&raw) {
                Ok(flatten_events(&raw))
            } else {
                Err(QueryError::NotFound)
            }
        },
        RpcOutcome::NotFound => Err(QueryError::NotFound),
        RpcOutcome::Unavailable => Err(QueryError::Unavailable),
        RpcOutcome::TransportFailure => Err(QueryError::TransportFailure),
    }
}

} // verus!
