//! Height-qualified query and proof retrieval for an IBC node.
//!
//! The crate models the read-only query surface of an inter-blockchain
//! communication (IBC) node: it turns domain-level query intents (protocol
//! object identifiers plus a block height) into wire requests, and decodes
//! wire responses back into typed domain objects, including proof bytes and
//! per-block event aggregation.  Transport itself (the open session to a
//! node) is a collaborator owned by the caller; everything here is pure and
//! synchronous, so each operation is a pair of functions: one that builds
//! the wire request, and one that interprets the wire outcome.

pub mod errors;
pub mod ids;
pub mod codec;
pub mod height;
pub mod request;
pub mod dispatch;
pub mod response;
pub mod events;
pub mod packets;
pub mod proofs;
