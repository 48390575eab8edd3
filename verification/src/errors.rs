//! The failure taxonomy shared by every query operation.

use vstd::prelude::*;

verus! {

/// How a single query can fail.
///
/// Every component propagates a failure to its immediate caller untouched:
/// nothing here retries, swallows or downgrades an error.
#[derive(Clone, Copy, Debug, PartialEq, Eq, Structural)]
pub enum QueryError {
    /// The connection was lost, the request timed out, or the wire envelope
    /// itself was malformed.
    TransportFailure,
    /// The queried protocol object, block or sequence does not exist at the
    /// node.
    NotFound,
    /// The node cannot service the request at the given height (for example
    /// the state was pruned); distinct from `NotFound` so a caller can retry
    /// at another height.
    Unavailable,
    /// A wire response could not be converted into the target domain type.
    DecodeError,
}

} // verus!
