//! Client-side core of a peer-to-peer storage network: addressing in a
//! 256-bit XOR keyspace, the request/response message protocol, and the
//! close-group quorum algorithms that reduce many peer responses into one
//! verified outcome.

pub mod address;
pub mod client;
pub mod error;
pub mod events;
pub mod messages;
pub mod node_ctrl;
pub mod quorum;
pub mod spend;

use vstd::prelude::*;

verus! {

/// Replication factor: the number of peers in a close group.
pub const CLOSE_GROUP_SIZE: usize = 8;

/// Majority of a close group of the fixed replication factor.
pub fn close_group_majority() -> (r: usize)
    ensures
        r == crate::quorum::majority(CLOSE_GROUP_SIZE as int),
{
    CLOSE_GROUP_SIZE / 2 + 1
}

} // verus!
