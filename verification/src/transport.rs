//! The connection as a capability, and the model that its contracts speak of.
//!
//! A [`Connection`] is what this crate needs to know of a connection: the
//! requests that were sent over it, where the response to each of them
//! stands, and which subscription ids have a channel, with the
//! notifications that wait in it. A [`Transport`] is anything that behaves
//! as this model says; a [`DuplexTransport`] also keeps the channels.
//!
//! The methods of the two traits are the steps that a client takes. What the
//! far end does, a response or a notification that arrives, a channel that
//! closes, the connection that goes down, is a step of the model too
//! ([`Connection::respond`], [`Connection::route`], [`Connection::close`],
//! [`Connection::shut`]), but no method of the traits: whoever owns the
//! connection lets these in between the calls of the client.
//!
//! The traits are there to be implemented. Where an implementor does not
//! say what its state is, nothing is known of it: the functions that state
//! it have a body here that says nothing.
use crate::api::platon_subscribe::SubscriptionId;
use crate::error::RpcError;
use vstd::prelude::*;

verus! {

/// What a poll gives: the value, or nothing yet.
#[derive(Debug, PartialEq, Eq)]
pub enum Poll<T> {
    /// The value is there.
    Ready(T),
    /// Nothing has arrived so far.
    Pending,
}

/// Where the response to one request stands.
pub enum Reply {
    /// No response has arrived.
    Waiting,
    /// The response has arrived and waits to be handed to the caller.
    Arrived(Result<serde_json::Value, RpcError>),
    /// The response was handed to the caller.
    Delivered,
}

/// One request, as it went out, and its response.
#[verifier::ext_equal]
pub struct CallRecord {
    /// The name of the remote method.
    pub method: Seq<char>,
    /// The parameters, in order.
    pub params: Seq<serde_json::Value>,
    /// The response.
    pub reply: Reply,
}

/// The channel of one subscription: the notifications that were pushed for
/// it and not read yet, oldest first.
#[verifier::ext_equal]
pub struct Channel {
    /// The notifications that wait, in the order they arrived in.
    pub queue: Seq<serde_json::Value>,
    /// Whether the connection has closed the channel: nothing more will
    /// arrive.
    pub closed: bool,
}

/// The state of a connection.
///
/// Calls are numbered by the order they were sent in: call number `n` is
/// `calls[n]`. A subscription id is registered when `channels` has it as a
/// key.
#[verifier::ext_equal]
pub struct Connection {
    /// Every request that was sent, oldest first.
    pub calls: Seq<CallRecord>,
    /// The registry: the channel of each registered subscription id.
    pub channels: Map<Seq<char>, Channel>,
    /// Whether the connection is up. One that is down registers nothing
    /// more.
    pub alive: bool,
}

impl Connection {
    /// A connection over which nothing has happened.
    pub open spec fn fresh() -> Connection {
        Connection { calls: Seq::empty(), channels: Map::empty(), alive: true }
    }

    /// Whether `id` has a channel.
    pub open spec fn registered(self, id: Seq<char>) -> bool {
        self.channels.contains_key(id)
    }

    /// The connection after one more request went out. The request gets the
    /// next call number, and no response yet.
    pub open spec fn execute(
        self,
        method: Seq<char>,
        params: Seq<serde_json::Value>,
    ) -> Connection {
        Connection {
            calls: self.calls.push(CallRecord { method, params, reply: Reply::Waiting }),
            ..self
        }
    }

    /// The response that waits to be handed to call number `call`, if one
    /// does.
    pub open spec fn arrived(self, call: nat) -> Option<Result<serde_json::Value, RpcError>> {
        if call < self.calls.len() {
            match self.calls[call as int].reply {
                Reply::Arrived(reply) => Some(reply),
                _ => None,
            }
        } else {
            None
        }
    }

    /// The record of call number `call` with its response set to `reply`.
    pub open spec fn with_reply(self, call: nat, reply: Reply) -> Connection {
        Connection {
            calls: self.calls.update(
                call as int,
                CallRecord {
                    method: self.calls[call as int].method,
                    params: self.calls[call as int].params,
                    reply,
                },
            ),
            ..self
        }
    }

    /// The connection after the response `reply` arrived for call number
    /// `call`. Only the first response to a call counts: one for a call
    /// that was never made, or that already has its response, changes
    /// nothing.
    pub open spec fn respond(
        self,
        call: nat,
        reply: Result<serde_json::Value, RpcError>,
    ) -> Connection {
        if call < self.calls.len() && self.calls[call as int].reply is Waiting {
            self.with_reply(call, Reply::Arrived(reply))
        } else {
            self
        }
    }

    /// The connection after the response that waited for call number `call`
    /// was handed over. Where none waited, nothing changes.
    pub open spec fn deliver(self, call: nat) -> Connection {
        if self.arrived(call) is Some {
            self.with_reply(call, Reply::Delivered)
        } else {
            self
        }
    }

    /// Whether the connection registers `id` when asked to: it does while it
    /// is up and `id` has no channel yet.
    pub open spec fn admits(self, id: Seq<char>) -> bool {
        self.alive && !self.registered(id)
    }

    /// The connection after `id` got a channel of its own, empty and open.
    pub open spec fn register(self, id: Seq<char>) -> Connection {
        Connection {
            channels: self.channels.insert(id, Channel { queue: Seq::empty(), closed: false }),
            ..self
        }
    }

    /// The connection after the channel of `id` was removed, with all that
    /// waited in it. Where `id` had none, nothing changes.
    pub open spec fn deregister(self, id: Seq<char>) -> Connection {
        Connection { channels: self.channels.remove(id), ..self }
    }

    /// Whether a notification for `id` finds a channel that takes it.
    pub open spec fn takes(self, id: Seq<char>) -> bool {
        self.registered(id) && !self.channels[id].closed
    }

    /// The connection after the notification `payload` arrived for `id`. It
    /// joins the end of the channel of `id`. Where `id` has no channel, or
    /// a closed one, the notification is dropped.
    pub open spec fn route(self, id: Seq<char>, payload: serde_json::Value) -> Connection {
        if self.takes(id) {
            Connection {
                channels: self.channels.insert(
                    id,
                    Channel { queue: self.channels[id].queue.push(payload), closed: false },
                ),
                ..self
            }
        } else {
            self
        }
    }

    /// The connection after the channel of `id` was closed. What waits in
    /// it stays.
    pub open spec fn close(self, id: Seq<char>) -> Connection {
        if self.registered(id) {
            Connection {
                channels: self.channels.insert(
                    id,
                    Channel { queue: self.channels[id].queue, closed: true },
                ),
                ..self
            }
        } else {
            self
        }
    }

    /// The connection after it went down: every channel is closed, with what
    /// waits in it still there, and no id is registered from now on.
    pub open spec fn shut(self) -> Connection {
        Connection {
            calls: self.calls,
            channels: self.channels.map_values(
                |channel: Channel| Channel { queue: channel.queue, closed: true },
            ),
            alive: false,
        }
    }

    /// What a poll of the channel of `id` gives: the oldest notification
    /// that waits; the end, where none waits and the channel is closed or
    /// gone; nothing yet, where none waits and the channel is open.
    pub open spec fn next_item(self, id: Seq<char>) -> Poll<Option<serde_json::Value>> {
        if !self.registered(id) {
            Poll::Ready(None)
        } else if self.channels[id].queue.len() > 0 {
            Poll::Ready(Some(self.channels[id].queue[0]))
        } else if self.channels[id].closed {
            Poll::Ready(None)
        } else {
            Poll::Pending
        }
    }

    /// The connection after a poll of the channel of `id`: the oldest
    /// notification that waited has left the channel.
    pub open spec fn advance(self, id: Seq<char>) -> Connection {
        if self.registered(id) && self.channels[id].queue.len() > 0 {
            Connection {
                channels: self.channels.insert(
                    id,
                    Channel {
                        queue: self.channels[id].queue.skip(1),
                        closed: self.channels[id].closed,
                    },
                ),
                ..self
            }
        } else {
            self
        }
    }
}

/// Whether `after` is the connection that `before` becomes when it is asked
/// to register `id`, and `done` whether it did. It does exactly when it
/// admits the id, and then the id has its new channel; else nothing has
/// changed.
pub open spec fn subscribed(
    before: Connection,
    id: Seq<char>,
    after: Connection,
    done: bool,
) -> bool {
    &&& done == before.admits(id)
    &&& after == if done {
        before.register(id)
    } else {
        before
    }
}

/// Whether `e` is the failure that `connection` refuses to register `id`
/// with: that the id is taken, or else that the connection is down.
pub open spec fn refusal(connection: Connection, id: Seq<char>, e: RpcError) -> bool {
    if connection.registered(id) {
        e is Registration
    } else {
        e is Transport
    }
}

/// A connection that sends requests and hands back their responses.
///
/// Many requests may be in flight at once. Each is answered at most once,
/// and a response is handed only to the call that it belongs to.
pub trait Transport: Sized {
    /// The handle on one request in flight.
    type Out;

    /// The state of the connection. An implementor states it.
    open spec fn view(&self) -> Connection {
        arbitrary()
    }

    /// The number of the call that `out` is the handle of. An implementor
    /// states it.
    open spec fn call_of(out: &Self::Out) -> nat {
        arbitrary()
    }

    /// Sends one request and returns the handle on it.
    fn execute(&mut self, method: &str, params: Vec<serde_json::Value>) -> (out: Self::Out)
        ensures
            final(self)@ == old(self)@.execute(method@, params@),
            Self::call_of(&out) == old(self)@.calls.len(),
    ;

    /// Asks for the response to the request of `out`. The response is
    /// handed over once: after that the call has nothing more to give.
    fn poll_response(&mut self, out: &Self::Out) -> (r: Poll<Result<serde_json::Value, RpcError>>)
        ensures
            r == match old(self)@.arrived(Self::call_of(out)) {
                Some(reply) => Poll::Ready(reply),
                None => Poll::Pending,
            },
            final(self)@ == old(self)@.deliver(Self::call_of(out)),
    ;
}

/// A connection that also receives notifications, and keeps the registry
/// that says which channel each of them goes to.
pub trait DuplexTransport: Transport {
    /// The reading end of one channel.
    type NotificationStream;

    /// The subscription id whose channel `rx` reads. An implementor states
    /// it.
    open spec fn stream_id(rx: &Self::NotificationStream) -> Seq<char> {
        arbitrary()
    }

    /// Registers `id` and returns the reading end of its new channel. This
    /// succeeds while the connection is up and `id` has no channel yet. An
    /// id that is registered already is refused with
    /// [`RpcError::Registration`], and any id on a connection that is down
    /// with [`RpcError::Transport`]. A refusal leaves the connection as it
    /// was.
    fn subscribe(&mut self, id: SubscriptionId) -> (r: Result<Self::NotificationStream, RpcError>)
        ensures
            subscribed(old(self)@, id@, final(self)@, r is Ok),
            r matches Ok(rx) ==> Self::stream_id(&rx) == id@,
            r matches Err(e) ==> refusal(old(self)@, id@, e),
    ;

    /// Removes `id` from the registry. An id that is not registered is no
    /// error: nothing changes.
    fn unsubscribe(&mut self, id: SubscriptionId)
        ensures
            final(self)@ == old(self)@.deregister(id@),
    ;

    /// Reads the next notification from the channel of `rx`.
    fn poll_next(&mut self, rx: &Self::NotificationStream) -> (r: Poll<Option<serde_json::Value>>)
        ensures
            r == old(self)@.next_item(Self::stream_id(rx)),
            final(self)@ == old(self)@.advance(Self::stream_id(rx)),
    ;
}

} // verus!
