//! The handle on one call in flight.
use crate::error::RpcError;
use crate::json::{decoded, Decode};
use crate::transport::{Connection, Poll, Transport};
use std::marker::PhantomData;
use vstd::prelude::*;

verus! {

/// Whether `outcome` is what a call resolves to when the connection holds
/// `reply` for it. A failure of the connection or of the server is handed
/// on as it is. A payload is read as an `R`: the outcome is the item that
/// it holds, or the decode failure where it holds none.
pub open spec fn resolves_to<R: Decode>(
    reply: Result<serde_json::Value, RpcError>,
    outcome: Result<R, RpcError>,
) -> bool {
    match reply {
        Ok(raw) => decoded(raw, outcome),
        Err(e) => outcome == Err::<R, RpcError>(e),
    }
}

/// Whether `call` is the handle on a request that was sent just now: the
/// connection went from `before` to `after` by sending the request for
/// `method` with `params` and nothing else, and `call` waits, unspent, on
/// the number that the request got.
pub open spec fn issued<T: Transport, R: Decode>(
    before: Connection,
    after: Connection,
    call: CallFuture<R, T::Out>,
    method: Seq<char>,
    params: Seq<serde_json::Value>,
) -> bool {
    &&& after == before.execute(method, params)
    &&& call.handle() matches Some(out) && T::call_of(&out) == before.calls.len()
}

/// One call in flight, to be resolved to an `R`.
///
/// The call resolves at most once: after `poll` has returned
/// [`Poll::Ready`], the call is spent, and every later `poll` returns
/// [`Poll::Pending`] without touching the connection.
pub struct CallFuture<R, F> {
    inner: Option<F>,
    _marker: PhantomData<R>,
}

impl<R: Decode, F> CallFuture<R, F> {
    /// The handle that the call waits on, and `None` once the call is
    /// spent.
    pub closed spec fn handle(&self) -> Option<F> {
        self.inner
    }

    /// The call that waits on `inner`.
    pub fn new(inner: F) -> (call: Self)
        ensures
            call.handle() == Some(inner),
    {
        CallFuture { inner: Some(inner), _marker: PhantomData }
    }

    /// Whether the call has resolved already.
    pub fn is_spent(&self) -> (spent: bool)
        ensures
            spent == (self.handle() is None),
    {
        self.inner.is_none()
    }

    /// Asks `transport` for the response to this call.
    ///
    /// While the response has not arrived, the result is
    /// [`Poll::Pending`] and nothing changes. Once it has, the result is
    /// what the response resolves to, the connection has handed the
    /// response over, and the call is spent. The response looked at is that
    /// of this call's own number, whatever else is in flight.
    pub fn poll<T: Transport<Out = F>>(&mut self, transport: &mut T) -> (r: Poll<
        Result<R, RpcError>,
    >)
        ensures
            match old(self).handle() {
                None => {
                    &&& r is Pending
                    &&& final(self).handle() is None
                    &&& final(transport)@ == old(transport)@
                },
                Some(out) => match old(transport)@.arrived(T::call_of(&out)) {
                    None => {
                        &&& r is Pending
                        &&& final(self).handle() == Some(out)
                        &&& final(transport)@ == old(transport)@
                    },
                    Some(reply) => {
                        &&& r matches Poll::Ready(outcome) && resolves_to(reply, outcome)
                        &&& final(self).handle() is None
                        &&& final(transport)@ == old(transport)@.deliver(T::call_of(&out))
                    },
                },
            },
    {
        match self.inner.take() {
            None => Poll::Pending,
            Some(out) => match transport.poll_response(&out) {
                Poll::Pending => {
                    self.inner = Some(out);
                    Poll::Pending
                },
                Poll::Ready(Ok(raw)) => Poll::Ready(R::decode(raw)),
                Poll::Ready(Err(e)) => Poll::Ready(Err(e)),
            },
        }
    }
}

} // verus!
