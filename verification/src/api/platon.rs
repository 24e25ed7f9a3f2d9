//! The `platon` namespace.
//!
//! Each method sends one request and returns the handle on it. The contract
//! of each names the remote method and lists the parameters as they go on
//! the wire, for every input. The response is read as the type `R` that the
//! caller chooses.
use crate::api::Namespace;
use crate::helpers::{issued, CallFuture};
use crate::json::{bool_value, json_bool, json_string, string_value, Decode};
use crate::transport::Transport;
use crate::types::block::{BlockId, BlockNumber, TransactionId};
use crate::types::bytes::{quantity_value, quantity_wire, Address, Bytes, H256};
use vstd::prelude::*;

verus! {

/// The block that a request is about where the caller names none: the
/// newest.
pub open spec fn or_latest(block: Option<BlockNumber>) -> BlockNumber {
    match block {
        Some(number) => number,
        None => BlockNumber::Latest,
    }
}

/// The block that a request is about where the caller names none, for a
/// request that takes a block id: the newest.
pub open spec fn id_or_latest(block: Option<BlockId>) -> BlockId {
    match block {
        Some(id) => id,
        None => BlockId::Number(BlockNumber::Latest),
    }
}

/// The `platon` namespace.
#[derive(Debug)]
pub struct PlatON<T> {
    transport: T,
}

impl<T: Transport> Namespace<T> for PlatON<T> {
    closed spec fn link(&self) -> T {
        self.transport
    }

    fn new(transport: T) -> (namespace: Self) {
        PlatON { transport }
    }

    fn transport(&self) -> (transport: &T) {
        &self.transport
    }

    fn transport_mut(&mut self) -> (transport: &mut T) {
        &mut self.transport
    }
}

impl<T: Transport> PlatON<T> {
    /// Asks for the accounts that the node holds.
    pub fn accounts<R: Decode>(&mut self) -> (call: CallFuture<R, T::Out>)
        ensures
            issued::<T, R>(
                old(self).link()@,
                final(self).link()@,
                call,
                "platon_accounts"@,
                Seq::empty(),
            ),
    {
        CallFuture::new(self.transport.execute("platon_accounts", vec![]))
    }

    /// Asks for the height of the newest block.
    pub fn block_number<R: Decode>(&mut self, ledger_name: &String) -> (call: CallFuture<
        R,
        T::Out,
    >)
        ensures
            issued::<T, R>(
                old(self).link()@,
                final(self).link()@,
                call,
                "platon_blockNumber"@,
                seq![json_string(ledger_name@)],
            ),
    {
        let ledger = string_value(ledger_name.as_str());
        let params = vec![ledger];
        assert(params@ =~= seq![json_string(ledger_name@)]);
        CallFuture::new(self.transport.execute("platon_blockNumber", params))
    }

    /// Runs a method of a contract without changing the state of the chain.
    /// `req` is the call, serialized. Where no block is named, the call
    /// runs on the newest.
    pub fn call<R: Decode>(
        &mut self,
        ledger_name: &String,
        req: serde_json::Value,
        block: Option<BlockId>,
    ) -> (call: CallFuture<R, T::Out>)
        ensures
            issued::<T, R>(
                old(self).link()@,
                final(self).link()@,
                call,
                "platon_call"@,
                seq![json_string(ledger_name@), req, id_or_latest(block).wire()],
            ),
    {
        let ledger = string_value(ledger_name.as_str());
        let at = match block {
            Some(id) => id.to_value(),
            None => BlockId::Number(BlockNumber::Latest).to_value(),
        };
        let params = vec![ledger, req, at];
        assert(params@ =~= seq![json_string(ledger_name@), req, id_or_latest(block).wire()]);
        CallFuture::new(self.transport.execute("platon_call", params))
    }

    /// Asks for the address that rewards go to.
    pub fn coinbase<R: Decode>(&mut self) -> (call: CallFuture<R, T::Out>)
        ensures
            issued::<T, R>(
                old(self).link()@,
                final(self).link()@,
                call,
                "platon_coinbase"@,
                Seq::empty(),
            ),
    {
        CallFuture::new(self.transport.execute("platon_coinbase", vec![]))
    }

    /// Runs a call without changing the state of the chain, to learn how
    /// much gas it uses. `req` is the call, serialized. The block is a
    /// parameter of the request only where the caller names one.
    pub fn estimate_gas<R: Decode>(
        &mut self,
        ledger_name: &String,
        req: serde_json::Value,
        block: Option<BlockNumber>,
    ) -> (call: CallFuture<R, T::Out>)
        ensures
            issued::<T, R>(
                old(self).link()@,
                final(self).link()@,
                call,
                "platon_estimateGas"@,
                match block {
                    Some(number) => seq![json_string(ledger_name@), req, number.wire()],
                    None => seq![json_string(ledger_name@), req],
                },
            ),
    {
        let ledger = string_value(ledger_name.as_str());
        let params = match block {
            Some(number) => {
                let params = vec![ledger, req, number.to_value()];
                assert(params@ =~= seq![json_string(ledger_name@), req, number.wire()]);
                params
            },
            None => {
                let params = vec![ledger, req];
                assert(params@ =~= seq![json_string(ledger_name@), req]);
                params
            },
        };
        CallFuture::new(self.transport.execute("platon_estimateGas", params))
    }

    /// Asks for the gas price that the node recommends.
    pub fn gas_price<R: Decode>(&mut self, ledger_name: &String) -> (call: CallFuture<R, T::Out>)
        ensures
            issued::<T, R>(
                old(self).link()@,
                final(self).link()@,
                call,
                "platon_gasPrice"@,
                seq![json_string(ledger_name@)],
            ),
    {
        let ledger = string_value(ledger_name.as_str());
        let params = vec![ledger];
        assert(params@ =~= seq![json_string(ledger_name@)]);
        CallFuture::new(self.transport.execute("platon_gasPrice", params))
    }

    /// Asks for the balance of `address`, as of `block` or, where none is
    /// named, of the newest block.
    pub fn balance<R: Decode>(
        &mut self,
        ledger_name: &String,
        address: Address,
        block: Option<BlockNumber>,
    ) -> (call: CallFuture<R, T::Out>)
        ensures
            issued::<T, R>(
                old(self).link()@,
                final(self).link()@,
                call,
                "platon_balance"@,
                seq![json_string(ledger_name@), address.wire(), or_latest(block).wire()],
            ),
    {
        let params = self.about_account(ledger_name, address, block);
        CallFuture::new(self.transport.execute("platon_balance", params))
    }

    /// Asks for a block, with the hashes of its transactions.
    pub fn block<R: Decode>(&mut self, ledger_name: &String, block: BlockId) -> (call: CallFuture<
        R,
        T::Out,
    >)
        ensures
            match block {
                BlockId::Hash(hash) => issued::<T, R>(
                    old(self).link()@,
                    final(self).link()@,
                    call,
                    "platon_getBlockByHash"@,
                    seq![json_string(ledger_name@), hash.wire(), json_bool(false)],
                ),
                BlockId::Number(number) => issued::<T, R>(
                    old(self).link()@,
                    final(self).link()@,
                    call,
                    "platon_getBlockByNumber"@,
                    seq![json_string(ledger_name@), number.wire(), json_bool(false)],
                ),
            },
    {
        let ledger = string_value(ledger_name.as_str());
        let include_txs = bool_value(false);
        let result = match block {
            BlockId::Hash(hash) => {
                let params = vec![ledger, hash.to_value(), include_txs];
                assert(params@ =~= seq![json_string(ledger_name@), hash.wire(), json_bool(false)]);
                self.transport.execute("platon_getBlockByHash", params)
            },
            BlockId::Number(number) => {
                let params = vec![ledger, number.to_value(), include_txs];
                assert(params@ =~= seq![
                    json_string(ledger_name@),
                    number.wire(),
                    json_bool(false),
                ]);
                self.transport.execute("platon_getBlockByNumber", params)
            },
        };
        CallFuture::new(result)
    }

    /// Asks for a block, with its transactions in full.
    pub fn block_with_txs<R: Decode>(&mut self, ledger_name: &String, block: BlockId) -> (call:
        CallFuture<R, T::Out>)
        ensures
            match block {
                BlockId::Hash(hash) => issued::<T, R>(
                    old(self).link()@,
                    final(self).link()@,
                    call,
                    "platon_getBlockByHash"@,
                    seq![json_string(ledger_name@), hash.wire(), json_bool(true)],
                ),
                BlockId::Number(number) => issued::<T, R>(
                    old(self).link()@,
                    final(self).link()@,
                    call,
                    "platon_getBlockByNumber"@,
                    seq![json_string(ledger_name@), number.wire(), json_bool(true)],
                ),
            },
    {
        let ledger = string_value(ledger_name.as_str());
        let include_txs = bool_value(true);
        let result = match block {
            BlockId::Hash(hash) => {
                let params = vec![ledger, hash.to_value(), include_txs];
                assert(params@ =~= seq![json_string(ledger_name@), hash.wire(), json_bool(true)]);
                self.transport.execute("platon_getBlockByHash", params)
            },
            BlockId::Number(number) => {
                let params = vec![ledger, number.to_value(), include_txs];
                assert(params@ =~= seq![json_string(ledger_name@), number.wire(), json_bool(true)]);
                self.transport.execute("platon_getBlockByNumber", params)
            },
        };
        CallFuture::new(result)
    }

    /// Asks how many transactions a block holds.
    pub fn block_transaction_count<R: Decode>(
        &mut self,
        ledger_name: &String,
        block: BlockId,
    ) -> (call: CallFuture<R, T::Out>)
        ensures
            match block {
                BlockId::Hash(hash) => issued::<T, R>(
                    old(self).link()@,
                    final(self).link()@,
                    call,
                    "platon_getBlockTransactionCountByHash"@,
                    seq![json_string(ledger_name@), hash.wire()],
                ),
                BlockId::Number(number) => issued::<T, R>(
                    old(self).link()@,
                    final(self).link()@,
                    call,
                    "platon_getBlockTransactionCountByNumber"@,
                    seq![json_string(ledger_name@), number.wire()],
                ),
            },
    {
        let ledger = string_value(ledger_name.as_str());
        let result = match block {
            BlockId::Hash(hash) => {
                let params = vec![ledger, hash.to_value()];
                assert(params@ =~= seq![json_string(ledger_name@), hash.wire()]);
                self.transport.execute("platon_getBlockTransactionCountByHash", params)
            },
            BlockId::Number(number) => {
                let params = vec![ledger, number.to_value()];
                assert(params@ =~= seq![json_string(ledger_name@), number.wire()]);
                self.transport.execute("platon_getBlockTransactionCountByNumber", params)
            },
        };
        CallFuture::new(result)
    }

    /// Asks for the code at `address`, as of `block` or, where none is
    /// named, of the newest block.
    pub fn code<R: Decode>(
        &mut self,
        ledger_name: &String,
        address: Address,
        block: Option<BlockNumber>,
    ) -> (call: CallFuture<R, T::Out>)
        ensures
            issued::<T, R>(
                old(self).link()@,
                final(self).link()@,
                call,
                "platon_getCode"@,
                seq![json_string(ledger_name@), address.wire(), or_latest(block).wire()],
            ),
    {
        let params = self.about_account(ledger_name, address, block);
        CallFuture::new(self.transport.execute("platon_getCode", params))
    }

    /// Asks how many transactions `address` has sent, as of `block` or,
    /// where none is named, of the newest block.
    pub fn transaction_count<R: Decode>(
        &mut self,
        ledger_name: &String,
        address: Address,
        block: Option<BlockNumber>,
    ) -> (call: CallFuture<R, T::Out>)
        ensures
            issued::<T, R>(
                old(self).link()@,
                final(self).link()@,
                call,
                "platon_getTransactionCount"@,
                seq![json_string(ledger_name@), address.wire(), or_latest(block).wire()],
            ),
    {
        let params = self.about_account(ledger_name, address, block);
        CallFuture::new(self.transport.execute("platon_getTransactionCount", params))
    }

    /// Asks for a transaction. One that is named by the height of its block
    /// is asked for without the name of the ledger.
    pub fn transaction<R: Decode>(&mut self, ledger_name: &String, id: TransactionId) -> (call:
        CallFuture<R, T::Out>)
        ensures
            match id {
                TransactionId::Hash(hash) => issued::<T, R>(
                    old(self).link()@,
                    final(self).link()@,
                    call,
                    "platon_getTransactionByHash"@,
                    seq![json_string(ledger_name@), hash.wire()],
                ),
                TransactionId::Block(BlockId::Hash(hash), index) => issued::<T, R>(
                    old(self).link()@,
                    final(self).link()@,
                    call,
                    "platon_getTransactionByBlockHashAndIndex"@,
                    seq![json_string(ledger_name@), hash.wire(), quantity_wire(index)],
                ),
                TransactionId::Block(BlockId::Number(number), index) => issued::<T, R>(
                    old(self).link()@,
                    final(self).link()@,
                    call,
                    "platon_getTransactionByBlockNumberAndIndex"@,
                    seq![number.wire(), quantity_wire(index)],
                ),
            },
    {
        let ledger = string_value(ledger_name.as_str());
        let result = match id {
            TransactionId::Hash(hash) => {
                let params = vec![ledger, hash.to_value()];
                assert(params@ =~= seq![json_string(ledger_name@), hash.wire()]);
                self.transport.execute("platon_getTransactionByHash", params)
            },
            TransactionId::Block(BlockId::Hash(hash), index) => {
                let params = vec![ledger, hash.to_value(), quantity_value(index)];
                assert(params@ =~= seq![
                    json_string(ledger_name@),
                    hash.wire(),
                    quantity_wire(index),
                ]);
                self.transport.execute("platon_getTransactionByBlockHashAndIndex", params)
            },
            TransactionId::Block(BlockId::Number(number), index) => {
                let params = vec![number.to_value(), quantity_value(index)];
                assert(params@ =~= seq![number.wire(), quantity_wire(index)]);
                self.transport.execute("platon_getTransactionByBlockNumberAndIndex", params)
            },
        };
        CallFuture::new(result)
    }

    /// Asks for the receipt of the transaction with the hash `hash`.
    pub fn transaction_receipt<R: Decode>(&mut self, ledger_name: &String, hash: H256) -> (call:
        CallFuture<R, T::Out>)
        ensures
            issued::<T, R>(
                old(self).link()@,
                final(self).link()@,
                call,
                "platon_getTransactionReceipt"@,
                seq![json_string(ledger_name@), hash.wire()],
            ),
    {
        let ledger = string_value(ledger_name.as_str());
        let params = vec![ledger, hash.to_value()];
        assert(params@ =~= seq![json_string(ledger_name@), hash.wire()]);
        CallFuture::new(self.transport.execute("platon_getTransactionReceipt", params))
    }

    /// Sends a signed transaction, given in its encoded form.
    pub fn send_raw_transaction<R: Decode>(&mut self, ledger_name: &String, rlp: Bytes) -> (call:
        CallFuture<R, T::Out>)
        ensures
            issued::<T, R>(
                old(self).link()@,
                final(self).link()@,
                call,
                "platon_sendRawTransaction"@,
                seq![json_string(ledger_name@), rlp.wire()],
            ),
    {
        let ledger = string_value(ledger_name.as_str());
        let params = vec![ledger, rlp.to_value()];
        assert(params@ =~= seq![json_string(ledger_name@), rlp.wire()]);
        CallFuture::new(self.transport.execute("platon_sendRawTransaction", params))
    }

    /// Sends a transaction for the node to sign. `tx` is the transaction,
    /// serialized.
    pub fn send_transaction<R: Decode>(
        &mut self,
        ledger_name: &String,
        tx: serde_json::Value,
    ) -> (call: CallFuture<R, T::Out>)
        ensures
            issued::<T, R>(
                old(self).link()@,
                final(self).link()@,
                call,
                "platon_sendTransaction"@,
                seq![json_string(ledger_name@), tx],
            ),
    {
        let ledger = string_value(ledger_name.as_str());
        let params = vec![ledger, tx];
        assert(params@ =~= seq![json_string(ledger_name@), tx]);
        CallFuture::new(self.transport.execute("platon_sendTransaction", params))
    }

    /// Has the node sign a hash of `data` with the key of `address`.
    pub fn sign<R: Decode>(&mut self, ledger_name: &String, address: Address, data: Bytes) -> (call:
        CallFuture<R, T::Out>)
        ensures
            issued::<T, R>(
                old(self).link()@,
                final(self).link()@,
                call,
                "platon_sign"@,
                seq![json_string(ledger_name@), address.wire(), data.wire()],
            ),
    {
        let ledger = string_value(ledger_name.as_str());
        let params = vec![ledger, address.to_value(), data.to_value()];
        assert(params@ =~= seq![json_string(ledger_name@), address.wire(), data.wire()]);
        CallFuture::new(self.transport.execute("platon_sign", params))
    }

    /// Asks how far the node is with syncing.
    pub fn syncing<R: Decode>(&mut self, ledger_name: &String) -> (call: CallFuture<R, T::Out>)
        ensures
            issued::<T, R>(
                old(self).link()@,
                final(self).link()@,
                call,
                "platon_syncing"@,
                seq![json_string(ledger_name@)],
            ),
    {
        let ledger = string_value(ledger_name.as_str());
        let params = vec![ledger];
        assert(params@ =~= seq![json_string(ledger_name@)]);
        CallFuture::new(self.transport.execute("platon_syncing", params))
    }

    /// The parameters of a request about one account.
    fn about_account(
        &self,
        ledger_name: &String,
        address: Address,
        block: Option<BlockNumber>,
    ) -> (params: Vec<serde_json::Value>)
        ensures
            params@ == seq![json_string(ledger_name@), address.wire(), or_latest(block).wire()],
    {
        let ledger = string_value(ledger_name.as_str());
        let at = match block {
            Some(number) => number.to_value(),
            None => BlockNumber::Latest.to_value(),
        };
        let params = vec![ledger, address.to_value(), at];
        assert(params@ =~= seq![
            json_string(ledger_name@),
            address.wire(),
            or_latest(block).wire(),
        ]);
        params
    }
}

} // verus!
