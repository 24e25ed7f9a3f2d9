//! The consensus status of a node.
use crate::types::bytes::H256;
use vstd::prelude::*;

verus! {

/// The consensus status that a node reports.
#[derive(Debug, Clone, Copy, PartialEq)]
pub struct ConsensusStatus {
    /// The state of the round.
    pub state: State,
    /// Whether the node is a validator.
    pub validator: bool,
}

/// The state of a consensus round.
#[derive(Debug, Clone, Copy, PartialEq)]
pub struct State {
    /// The view the node is in.
    pub view: View,
    /// The highest block that is committed.
    pub committed: QCBlock,
    /// The highest block that is locked.
    pub locked: QCBlock,
    /// The highest block with a quorum certificate.
    pub qc: QCBlock,
}

/// A view: an epoch, and the number of the view within it.
#[derive(Debug, Clone, Copy, PartialEq)]
pub struct View {
    /// The epoch.
    pub epoch: u64,
    /// The number of the view.
    pub view: u64,
}

/// A block with a quorum certificate.
#[derive(Debug, Clone, Copy, PartialEq)]
pub struct QCBlock {
    /// The hash of the block.
    pub hash: H256,
    /// The height of the block.
    pub number: u64,
}

} // verus!
