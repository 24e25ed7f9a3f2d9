//! How a request names a block or a transaction.
use crate::json::{json_object, json_string, object_value, string_value};
use crate::types::bytes::{quantity_value, quantity_wire, H256};
use vstd::prelude::*;

verus! {

/// A block, by its place in the chain.
#[derive(Debug, Clone, Copy, PartialEq, Eq)]
pub enum BlockNumber {
    /// The newest block.
    Latest,
    /// The first block.
    Earliest,
    /// The block that is being put together.
    Pending,
    /// The block of this height.
    Number(u64),
}

impl BlockNumber {
    /// The block number on the wire: the name of the place, or the height
    /// as a quantity.
    pub open spec fn wire(self) -> serde_json::Value {
        match self {
            BlockNumber::Latest => json_string("latest"@),
            BlockNumber::Earliest => json_string("earliest"@),
            BlockNumber::Pending => json_string("pending"@),
            BlockNumber::Number(height) => quantity_wire(height),
        }
    }

    /// Serializes the block number.
    pub fn to_value(&self) -> (v: serde_json::Value)
        ensures
            v == self.wire(),
    {
        match self {
            BlockNumber::Latest => string_value("latest"),
            BlockNumber::Earliest => string_value("earliest"),
            BlockNumber::Pending => string_value("pending"),
            BlockNumber::Number(height) => quantity_value(*height),
        }
    }
}

/// A block, by its hash or by its place in the chain.
#[derive(Debug, Clone, Copy, PartialEq, Eq)]
pub enum BlockId {
    /// The block with this hash.
    Hash(H256),
    /// The block at this place.
    Number(BlockNumber),
}

impl BlockId {
    /// The block id on the wire, where a request takes either form in one
    /// parameter: a hash is the member `blockHash` of an object, a place is
    /// written as a block number is.
    pub open spec fn wire(self) -> serde_json::Value {
        match self {
            BlockId::Hash(hash) => json_object("blockHash"@, hash.wire()),
            BlockId::Number(number) => number.wire(),
        }
    }

    /// Serializes the block id.
    pub fn to_value(&self) -> (v: serde_json::Value)
        ensures
            v == self.wire(),
    {
        match self {
            BlockId::Hash(hash) => object_value("blockHash", hash.to_value()),
            BlockId::Number(number) => number.to_value(),
        }
    }
}

impl From<BlockNumber> for BlockId {
    fn from(number: BlockNumber) -> (id: BlockId) {
        BlockId::Number(number)
    }
}

impl vstd::std_specs::convert::FromSpecImpl<BlockNumber> for BlockId {
    open spec fn obeys_from_spec() -> bool {
        true
    }

    open spec fn from_spec(number: BlockNumber) -> BlockId {
        BlockId::Number(number)
    }
}

/// The place of a transaction in its block.
pub type Index = u64;

/// A transaction, by its hash or by its place in a block.
#[derive(Debug, Clone, Copy, PartialEq, Eq)]
pub enum TransactionId {
    /// The transaction with this hash.
    Hash(H256),
    /// The transaction at this place in this block.
    Block(BlockId, Index),
}

} // verus!
