//! Subscriptions: streams of notifications that the server pushes.
use crate::api::Namespace;
use crate::error::RpcError;
use crate::helpers::{issued, CallFuture};
use crate::json::{decoded, json_string, string_in, string_value, Decode};
use crate::transport::{refusal, subscribed, Connection, DuplexTransport, Poll, Transport};
use std::marker::PhantomData;
use vstd::prelude::*;

verus! {

/// The `platon` namespace, subscriptions.
#[derive(Debug)]
pub struct PlatONSubscribe<T> {
    transport: T,
}

impl<T: DuplexTransport> Namespace<T> for PlatONSubscribe<T> {
    closed spec fn link(&self) -> T {
        self.transport
    }

    fn new(transport: T) -> (namespace: Self) {
        PlatONSubscribe { transport }
    }

    fn transport(&self) -> (transport: &T) {
        &self.transport
    }

    fn transport_mut(&mut self) -> (transport: &mut T) {
        &mut self.transport
    }
}

/// The id that the server gave to a subscription.
///
/// It is the key under which the connection files the notifications of the
/// subscription, and the parameter of the request that ends it. Two ids are
/// the same when their text is.
#[derive(Debug, Eq, Ord, PartialEq, PartialOrd)]
pub struct SubscriptionId(String);

impl View for SubscriptionId {
    type V = Seq<char>;

    closed spec fn view(&self) -> Seq<char> {
        self.0@
    }
}

impl Clone for SubscriptionId {
    fn clone(&self) -> (copy: SubscriptionId)
        ensures
            copy == *self,
    {
        SubscriptionId(self.0.clone())
    }
}

impl From<String> for SubscriptionId {
    fn from(s: String) -> (id: SubscriptionId)
        ensures
            id@ == s@,
    {
        SubscriptionId(s)
    }
}

impl vstd::std_specs::convert::FromSpecImpl<String> for SubscriptionId {
    open spec fn obeys_from_spec() -> bool {
        true
    }

    closed spec fn from_spec(s: String) -> SubscriptionId {
        SubscriptionId(s)
    }
}

impl SubscriptionId {
    /// The text of the id.
    pub fn as_str(&self) -> (s: &str)
        ensures
            s@ == self@,
    {
        self.0.as_str()
    }

    /// Whether `other` is the same id: whether the two have the same text.
    pub fn same_as(&self, other: &SubscriptionId) -> (same: bool)
        ensures
            same == (self@ == other@),
    {
        self.0 == other.0
    }
}

/// The connection after the subscription `id` was given up: `id` has no
/// channel any more, and the request that tells the server to stop pushing
/// has gone out.
pub open spec fn released(connection: Connection, id: Seq<char>) -> Connection {
    connection.deregister(id).execute("platon_unsubscribe"@, seq![json_string(id)])
}

/// Whether a poll of a stream of `I` may give `r`. The stream has the id
/// `id` and reads from `connection`; `active` says whether it is active
/// before the poll, and `after` whether it is afterwards.
///
/// A terminated stream gives the end and stays terminated. An active one
/// gives what its channel gives: nothing yet, and stays active; the end, and
/// terminates; or a notification, read as an `I`, and stays active, whether
/// the reading succeeds or fails.
pub open spec fn polls_to<I: Decode>(
    active: bool,
    connection: Connection,
    id: Seq<char>,
    r: Poll<Option<Result<I, RpcError>>>,
    after: bool,
) -> bool {
    if !active {
        r matches Poll::Ready(None) && !after
    } else {
        match connection.next_item(id) {
            Poll::Pending => r is Pending && after,
            Poll::Ready(None) => r matches Poll::Ready(None) && !after,
            Poll::Ready(Some(raw)) => r matches Poll::Ready(Some(item)) && decoded(raw, item)
                && after,
        }
    }
}

/// The connection after a poll of a stream with the id `id`: an active
/// stream has taken the oldest notification of its channel, a terminated
/// one has touched nothing.
pub open spec fn polled(active: bool, connection: Connection, id: Seq<char>) -> Connection {
    if active {
        connection.advance(id)
    } else {
        connection
    }
}

/// The notifications of one subscription, read as items of type `I`.
///
/// A stream is active or terminated. While it is active, a poll yields the
/// notifications of its id in the order they arrived in, each read on its
/// own: one that cannot be read as an `I` is yielded as a failure, and the
/// stream goes on. The stream terminates when its channel has ended, or
/// when it is discarded; from then on every poll yields the end.
pub struct SubscriptionStream<T: DuplexTransport, I> {
    id: SubscriptionId,
    rx: T::NotificationStream,
    active: bool,
    _marker: PhantomData<I>,
}

impl<T: DuplexTransport, I> SubscriptionStream<T, I> {
    #[verifier::type_invariant]
    spec fn reads_own_channel(&self) -> bool {
        T::stream_id(&self.rx) == self.id@
    }

    /// The text of the subscription id.
    pub closed spec fn key(&self) -> Seq<char> {
        self.id@
    }

    /// Whether the stream is active.
    pub closed spec fn is_active(&self) -> bool {
        self.active
    }
}

impl<T: DuplexTransport, I: Decode> SubscriptionStream<T, I> {
    /// Registers `id` with `transport` and returns the stream that reads
    /// its channel. There is a stream exactly when the connection admits
    /// the id: when it is up and the id has no channel yet. The stream is
    /// active. Where the registration is refused there is no stream, and
    /// the connection is as it was.
    pub fn new(transport: &mut T, id: SubscriptionId) -> (r: Result<Self, RpcError>)
        ensures
            subscribed(old(transport)@, id@, final(transport)@, r is Ok),
            r matches Ok(stream) ==> stream.key() == id@ && stream.is_active(),
            r matches Err(e) ==> refusal(old(transport)@, id@, e),
    {
        match transport.subscribe(id.clone()) {
            Ok(rx) => Ok(SubscriptionStream { id, rx, active: true, _marker: PhantomData }),
            Err(e) => Err(e),
        }
    }

    /// The id of this subscription.
    pub fn id(&self) -> (id: &SubscriptionId)
        ensures
            id@ == self.key(),
    {
        &self.id
    }

    /// Whether the stream has terminated.
    pub fn is_terminated(&self) -> (terminated: bool)
        ensures
            terminated == !self.is_active(),
    {
        !self.active
    }

    /// Asks for the next item.
    ///
    /// An active stream takes the oldest notification that waits in its
    /// channel and yields it, read as an `I`. Where none waits, the result
    /// is [`Poll::Pending`] while the channel is open, and the end once it
    /// is closed or gone; the end terminates the stream. A terminated
    /// stream yields the end and leaves the connection alone.
    pub fn poll_next(&mut self, transport: &mut T) -> (r: Poll<Option<Result<I, RpcError>>>)
        ensures
            final(self).key() == old(self).key(),
            polls_to(
                old(self).is_active(),
                old(transport)@,
                old(self).key(),
                r,
                final(self).is_active(),
            ),
            final(transport)@ == polled(old(self).is_active(), old(transport)@, old(self).key()),
    {
        proof {
            use_type_invariant(&*self);
        }
        if !self.active {
            return Poll::Ready(None);
        }
        match transport.poll_next(&self.rx) {
            Poll::Pending => Poll::Pending,
            Poll::Ready(None) => {
                self.active = false;
                Poll::Ready(None)
            },
            Poll::Ready(Some(raw)) => Poll::Ready(Some(I::decode(raw))),
        }
    }

    /// Unsubscribes: removes the channel of this subscription from the
    /// connection and asks the server to stop pushing. The call that is
    /// returned resolves to what the server answers.
    pub fn unsubscribe(self, transport: &mut T) -> (call: CallFuture<bool, T::Out>)
        ensures
            final(transport)@ == released(old(transport)@, self.key()),
            call.handle() matches Some(out) && T::call_of(&out) == old(transport)@.calls.len(),
    {
        let id = string_value(self.id.as_str());
        let params = vec![id];
        assert(params@ =~= seq![json_string(self.key())]);
        transport.unsubscribe(self.id);
        CallFuture::new(transport.execute("platon_unsubscribe", params))
    }

    /// Gives the subscription up without waiting for an answer: removes its
    /// channel from the connection, sends the request that asks the server
    /// to stop pushing, and lets go of the handle on that request. The
    /// stream is terminated afterwards.
    pub fn discard(&mut self, transport: &mut T)
        ensures
            final(transport)@ == released(old(transport)@, old(self).key()),
            final(self).key() == old(self).key(),
            !final(self).is_active(),
    {
        proof {
            use_type_invariant(&*self);
        }
        let id = string_value(self.id.as_str());
        let params = vec![id];
        assert(params@ =~= seq![json_string(self.key())]);
        transport.unsubscribe(self.id.clone());
        let _ = transport.execute("platon_unsubscribe", params);
        self.active = false;
    }
}

/// Whether `r` and `after` are how a subscription ends up once the
/// response `reply` to its request was handed over, which left the
/// connection as `at`.
///
/// A request that failed gives its failure, and a response that is no
/// string a decode failure; the connection stays as `at`. A string is the
/// id. Where `at` admits the id, the result is the active stream of that
/// id, over a connection in which the id has its new channel. Where it
/// does not, the result is the refusal, and the connection stays as `at`.
/// There is a result in every case.
pub open spec fn established<T: DuplexTransport, I: Decode>(
    at: Connection,
    reply: Result<serde_json::Value, RpcError>,
    after: Connection,
    r: Poll<Result<SubscriptionStream<T, I>, RpcError>>,
) -> bool {
    match reply {
        Err(e) => r == Poll::Ready(Err::<SubscriptionStream<T, I>, RpcError>(e)) && after == at,
        Ok(raw) => match string_in(raw) {
            None => r matches Poll::Ready(Err(e)) && e is Decoder && after == at,
            Some(id) => match r {
                Poll::Ready(Ok(stream)) => {
                    &&& at.admits(id)
                    &&& after == at.register(id)
                    &&& stream.key() == id
                    &&& stream.is_active()
                },
                Poll::Ready(Err(e)) => !at.admits(id) && after == at && refusal(at, id, e),
                Poll::Pending => false,
            },
        },
    }
}

/// A subscription that is being set up: the request for it is in flight,
/// and the stream comes into being when the id arrives.
pub struct SubscriptionResult<T: DuplexTransport, I> {
    inner: CallFuture<String, T::Out>,
    _marker: PhantomData<I>,
}

impl<T: DuplexTransport, I: Decode> SubscriptionResult<T, I> {
    /// The call that brings the id.
    pub closed spec fn call(&self) -> CallFuture<String, T::Out> {
        self.inner
    }

    /// The subscription that `id_future` brings the id of.
    pub fn new(id_future: CallFuture<String, T::Out>) -> (result: Self)
        ensures
            result.call() == id_future,
    {
        SubscriptionResult { inner: id_future, _marker: PhantomData }
    }

    /// Asks whether the subscription is set up.
    ///
    /// While the id has not arrived the result is [`Poll::Pending`] and
    /// nothing changes. Once the response is there it is handed over, and
    /// the outcome is as [`established`] says. Whenever the result is no
    /// stream, the registry is what it was before.
    pub fn poll(&mut self, transport: &mut T) -> (r: Poll<
        Result<SubscriptionStream<T, I>, RpcError>,
    >)
        ensures
            match old(self).call().handle() {
                None => {
                    &&& r is Pending
                    &&& final(self).call().handle() is None
                    &&& final(transport)@ == old(transport)@
                },
                Some(out) => match old(transport)@.arrived(T::call_of(&out)) {
                    None => {
                        &&& r is Pending
                        &&& final(self).call().handle() == Some(out)
                        &&& final(transport)@ == old(transport)@
                    },
                    Some(reply) => {
                        &&& final(self).call().handle() is None
                        &&& established(
                            old(transport)@.deliver(T::call_of(&out)),
                            reply,
                            final(transport)@,
                            r,
                        )
                    },
                },
            },
            !(r matches Poll::Ready(Ok(_))) ==> final(transport)@.channels == old(
                transport,
            )@.channels,
    {
        match self.inner.poll(transport) {
            Poll::Pending => Poll::Pending,
            Poll::Ready(Err(e)) => Poll::Ready(Err(e)),
            Poll::Ready(Ok(id)) => Poll::Ready(
                SubscriptionStream::new(transport, SubscriptionId::from(id)),
            ),
        }
    }
}

impl<T: DuplexTransport> PlatONSubscribe<T> {
    /// Subscribes to the headers of new blocks: sends the request, and
    /// returns the subscription that is set up once the id arrives.
    pub fn subscribe_new_heads<I: Decode>(&mut self) -> (result: SubscriptionResult<T, I>)
        ensures
            issued::<T, String>(
                old(self).link()@,
                final(self).link()@,
                result.call(),
                "platon_subscribe"@,
                seq![json_string("newHeads"@)],
            ),
    {
        let subscription = string_value("newHeads");
        let params = vec![subscription];
        assert(params@ =~= seq![json_string("newHeads"@)]);
        let id_future = CallFuture::new(self.transport.execute("platon_subscribe", params));
        SubscriptionResult::new(id_future)
    }
}

} // verus!
