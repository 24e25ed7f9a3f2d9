//! The `debug` namespace.
use crate::api::Namespace;
use crate::helpers::{issued, CallFuture};
use crate::json::{json_string, string_value, Decode};
use crate::transport::Transport;
use vstd::prelude::*;

verus! {

/// The `debug` namespace.
#[derive(Debug)]
pub struct Debug<T> {
    transport: T,
}

impl<T: Transport> Namespace<T> for Debug<T> {
    closed spec fn link(&self) -> T {
        self.transport
    }

    fn new(transport: T) -> (namespace: Self) {
        Debug { transport }
    }

    fn transport(&self) -> (transport: &T) {
        &self.transport
    }

    fn transport_mut(&mut self) -> (transport: &mut T) {
        &mut self.transport
    }
}

impl<T: Transport> Debug<T> {
    /// Asks for the consensus status of the ledger `ledger_name`. The
    /// response has the shape of a
    /// [`ConsensusStatus`](crate::types::consensus::ConsensusStatus).
    pub fn consensus_status<R: Decode>(&mut self, ledger_name: &String) -> (call: CallFuture<
        R,
        T::Out,
    >)
        ensures
            issued::<T, R>(
                old(self).link()@,
                final(self).link()@,
                call,
                "debug_consensusStatus"@,
                seq![json_string(ledger_name@)],
            ),
    {
        let ledger = string_value(ledger_name.as_str());
        let params = vec![ledger];
        assert(params@ =~= seq![json_string(ledger_name@)]);
        CallFuture::new(self.transport.execute("debug_consensusStatus", params))
    }
}

} // verus!
