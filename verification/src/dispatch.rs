//! Interpreting the transport's outcome of one dispatched request.
//!
//! The transport hands back either the raw wire reply or one of the
//! failure conditions.  Interpretation maps that outcome onto the result
//! taxonomy exactly, touching nothing: a `NotFound` stays a `NotFound`
//! and is never confused with a decode failure, and a reply is handed on
//! to the query's own decoder untouched.

use vstd::prelude::*;

use crate::errors::QueryError;

verus! {

/// What one round trip over the transport came back with.
#[derive(Debug)]
pub enum RpcOutcome<T> {
    /// The node answered; the raw wire reply.
    Reply(T),
    /// The queried object, block or sequence does not exist at the node.
    NotFound,
    /// The node cannot service the request at the given height.
    Unavailable,
    /// The connection failed, timed out, or the envelope was malformed.
    TransportFailure,
}

/// The exact mapping from a transport outcome to a result: a reply is
/// passed through, each failure keeps its own condition.
pub open spec fn interpret_spec<T>(o: RpcOutcome<T>) -> Result<T, QueryError> {
    match o {
        RpcOutcome::Reply(t) => Ok(t),
        RpcOutcome::NotFound => Err(QueryError::NotFound),
        RpcOutcome::Unavailable => Err(QueryError::Unavailable),
        RpcOutcome::TransportFailure => Err(QueryError::TransportFailure),
    }
}

/// Maps a transport outcome onto the result taxonomy, untouched: no
/// retry, no downgrade, no default.
pub fn interpret<T>(o: RpcOutcome<T>) -> (r: Result<T, QueryError>)
    ensures
        r == interpret_spec(o),
{
    match o {
        RpcOutcome::Reply(t) => Ok(t),
        RpcOutcome::NotFound => Err(QueryError::NotFound),
        RpcOutcome::Unavailable => Err(QueryError::Unavailable),
        RpcOutcome::TransportFailure => Err(QueryError::TransportFailure),
    }
}

/// Queries in flight over one session do not leak state into each other:
/// the result of each call is a function of its own wire outcome alone,
/// so a pair of calls yields the same pair of results in either
/// completion order.
pub proof fn lemma_outcomes_independent<A, B>(a: RpcOutcome<A>, b: RpcOutcome<B>)
    ensures
        ({
            let first_a = (interpret_spec(a), interpret_spec(b));
            let first_b = {
                let rb = interpret_spec(b);
                let ra = interpret_spec(a);
                (ra, rb)
            };
            first_a == first_b
        }),
{
}

} // verus!
