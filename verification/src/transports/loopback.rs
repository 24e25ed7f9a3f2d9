//! A connection in memory, whose far end is the caller.
//!
//! A [`Loopback`] keeps the requests that were sent over it and the registry
//! of subscription channels. Nothing arrives by itself: the caller plays
//! the server, answers the calls with [`Loopback::respond`], pushes
//! notifications with [`Loopback::push`], and closes a channel or the
//! whole connection with [`Loopback::close`] and [`Loopback::shutdown`].
use crate::api::platon_subscribe::SubscriptionId;
use crate::error::RpcError;
use crate::transport::{CallRecord, Channel, Connection, DuplexTransport, Poll, Reply, Transport};
use vstd::prelude::*;

verus! {

/// One request that was sent, with its response.
struct Call {
    method: String,
    params: Vec<serde_json::Value>,
    reply: Reply,
}

impl Call {
    spec fn record(self) -> CallRecord {
        CallRecord { method: self.method@, params: self.params@, reply: self.reply }
    }
}

/// One line of the registry.
struct Entry {
    id: SubscriptionId,
    queue: Vec<serde_json::Value>,
    closed: bool,
}

impl Entry {
    spec fn channel(self) -> Channel {
        Channel { queue: self.queue@, closed: self.closed }
    }
}

/// The registry that the lines `entries` stand for. Of two lines with one
/// id the later counts.
spec fn registry(entries: Seq<Entry>) -> Map<Seq<char>, Channel>
    decreases entries.len(),
{
    if entries.len() == 0 {
        Map::empty()
    } else {
        registry(entries.drop_last()).insert(entries.last().id@, entries.last().channel())
    }
}

/// Whether line `i` is the last of `entries` with the id `id`.
spec fn last_at(entries: Seq<Entry>, id: Seq<char>, i: int) -> bool {
    &&& 0 <= i < entries.len()
    &&& entries[i].id@ == id
    &&& forall|j: int| i < j < entries.len() ==> (#[trigger] entries[j]).id@ != id
}

/// Whether no line of `entries` has the id `id`.
spec fn absent(entries: Seq<Entry>, id: Seq<char>) -> bool {
    forall|j: int| 0 <= j < entries.len() ==> (#[trigger] entries[j]).id@ != id
}

proof fn lemma_found(entries: Seq<Entry>, id: Seq<char>, i: int)
    requires
        last_at(entries, id, i),
    ensures
        registry(entries).contains_key(id),
        registry(entries)[id] == entries[i].channel(),
    decreases entries.len(),
{
    if i < entries.len() - 1 {
        assert(entries.last() == entries[entries.len() - 1]);
        let rest = entries.drop_last();
        assert forall|j: int| i < j < rest.len() implies (#[trigger] rest[j]).id@ != id by {
            assert(rest[j] == entries[j]);
        }
        lemma_found(rest, id, i);
    }
}

proof fn lemma_absent(entries: Seq<Entry>, id: Seq<char>)
    requires
        absent(entries, id),
    ensures
        !registry(entries).contains_key(id),
    decreases entries.len(),
{
    if entries.len() > 0 {
        assert(entries.last() == entries[entries.len() - 1]);
        let rest = entries.drop_last();
        assert forall|j: int| 0 <= j < rest.len() implies (#[trigger] rest[j]).id@ != id by {
            assert(rest[j] == entries[j]);
        }
        lemma_absent(rest, id);
    }
}

proof fn lemma_update(entries: Seq<Entry>, id: Seq<char>, i: int, entry: Entry)
    requires
        last_at(entries, id, i),
        entry.id@ == id,
    ensures
        registry(entries.update(i, entry)) == registry(entries).insert(id, entry.channel()),
    decreases entries.len(),
{
    let updated = entries.update(i, entry);
    if i == entries.len() - 1 {
        assert(updated.drop_last() =~= entries.drop_last());
        assert(registry(updated) =~= registry(entries).insert(id, entry.channel()));
    } else {
        assert(entries.last() == entries[entries.len() - 1]);
        let rest = entries.drop_last();
        assert forall|j: int| i < j < rest.len() implies (#[trigger] rest[j]).id@ != id by {
            assert(rest[j] == entries[j]);
        }
        lemma_update(rest, id, i, entry);
        assert(updated.drop_last() =~= rest.update(i, entry));
        assert(updated.last() == entries.last());
        assert(registry(updated) =~= registry(entries).insert(id, entry.channel()));
    }
}

proof fn lemma_remove(entries: Seq<Entry>, id: Seq<char>, i: int)
    requires
        last_at(entries, id, i),
    ensures
        registry(entries.remove(i)).remove(id) == registry(entries).remove(id),
    decreases entries.len(),
{
    let removed = entries.remove(i);
    if i == entries.len() - 1 {
        assert(removed =~= entries.drop_last());
        assert(registry(removed).remove(id) =~= registry(entries).remove(id));
    } else {
        assert(entries.last() == entries[entries.len() - 1]);
        let rest = entries.drop_last();
        assert forall|j: int| i < j < rest.len() implies (#[trigger] rest[j]).id@ != id by {
            assert(rest[j] == entries[j]);
        }
        lemma_remove(rest, id, i);
        assert(removed.drop_last() =~= rest.remove(i));
        assert(removed.last() == entries.last());
        let last = entries.last();
        let short = registry(rest.remove(i));
        let long = registry(rest);
        assert(short.insert(last.id@, last.channel()).remove(id) =~= short.remove(id).insert(
            last.id@,
            last.channel(),
        ));
        assert(long.insert(last.id@, last.channel()).remove(id) =~= long.remove(id).insert(
            last.id@,
            last.channel(),
        ));
    }
}

proof fn lemma_shut(before: Seq<Entry>, after: Seq<Entry>)
    requires
        after.len() == before.len(),
        forall|j: int|
            0 <= j < before.len() ==> {
                &&& (#[trigger] after[j]).id@ == before[j].id@
                &&& after[j].queue@ == before[j].queue@
                &&& after[j].closed
            },
    ensures
        registry(after) == registry(before).map_values(
            |channel: Channel| Channel { queue: channel.queue, closed: true },
        ),
    decreases before.len(),
{
    let shut = |channel: Channel| Channel { queue: channel.queue, closed: true };
    if before.len() > 0 {
        assert(after.last() == after[after.len() - 1]);
        assert(before.last() == before[before.len() - 1]);
        assert forall|j: int| 0 <= j < before.drop_last().len() implies {
            &&& (#[trigger] after.drop_last()[j]).id@ == before.drop_last()[j].id@
            &&& after.drop_last()[j].queue@ == before.drop_last()[j].queue@
            &&& after.drop_last()[j].closed
        } by {
            assert(after.drop_last()[j] == after[j]);
        }
        lemma_shut(before.drop_last(), after.drop_last());
        let rest = registry(before.drop_last());
        assert(rest.insert(before.last().id@, before.last().channel()).map_values(shut)
            =~= rest.map_values(shut).insert(before.last().id@, shut(before.last().channel())));
        assert(registry(after) =~= registry(before).map_values(shut));
    } else {
        assert(registry(after) =~= registry(before).map_values(shut));
    }
}

/// The handle on one request sent over a [`Loopback`].
#[derive(Debug)]
pub struct Ticket {
    call: usize,
}

impl Ticket {
    /// The number of the call.
    pub fn number(&self) -> (number: usize)
        ensures
            number == Loopback::call_of(self),
    {
        self.call
    }
}

/// The reading end of one channel of a [`Loopback`].
#[derive(Debug)]
pub struct Receiver {
    id: SubscriptionId,
}

/// A connection in memory.
pub struct Loopback {
    calls: Vec<Call>,
    channels: Vec<Entry>,
    alive: bool,
}

impl Loopback {
    /// A connection over which nothing has happened.
    pub fn new() -> (transport: Loopback)
        ensures
            transport@ == Connection::fresh(),
    {
        let transport = Loopback { calls: Vec::new(), channels: Vec::new(), alive: true };
        assert(transport@ =~= Connection::fresh());
        transport
    }

    /// The last line of the registry with the id `id`.
    fn find(&self, id: &SubscriptionId) -> (found: Option<usize>)
        ensures
            match found {
                Some(i) => last_at(self.channels@, id@, i as int),
                None => absent(self.channels@, id@),
            },
    {
        let mut i: usize = self.channels.len();
        while i > 0
            invariant
                i <= self.channels.len(),
                forall|j: int|
                    i <= j < self.channels.len() ==> (#[trigger] self.channels@[j]).id@ != id@,
            decreases i,
        {
            i = i - 1;
            if self.channels[i].id.same_as(id) {
                return Some(i);
            }
        }
        None
    }

    /// How many requests were sent.
    pub fn request_count(&self) -> (count: usize)
        ensures
            count == self@.calls.len(),
    {
        self.calls.len()
    }

    /// The name of the remote method of call number `call`.
    pub fn method(&self, call: usize) -> (method: Option<&str>)
        ensures
            match method {
                Some(name) => call < self@.calls.len() && name@ == self@.calls[call as int].method,
                None => call >= self@.calls.len(),
            },
    {
        if call < self.calls.len() {
            Some(self.calls[call].method.as_str())
        } else {
            None
        }
    }

    /// The parameters of call number `call`.
    pub fn params(&self, call: usize) -> (params: Option<&Vec<serde_json::Value>>)
        ensures
            match params {
                Some(list) => call < self@.calls.len() && list@ == self@.calls[call as int].params,
                None => call >= self@.calls.len(),
            },
    {
        if call < self.calls.len() {
            Some(&self.calls[call].params)
        } else {
            None
        }
    }

    /// Whether `id` has a channel.
    pub fn is_registered(&self, id: &SubscriptionId) -> (registered: bool)
        ensures
            registered == self@.registered(id@),
    {
        match self.find(id) {
            Some(i) => {
                proof {
                    lemma_found(self.channels@, id@, i as int);
                }
                true
            },
            None => {
                proof {
                    lemma_absent(self.channels@, id@);
                }
                false
            },
        }
    }

    /// How many notifications wait in the channel of `id`; `None` where
    /// `id` has no channel.
    pub fn waiting(&self, id: &SubscriptionId) -> (waiting: Option<usize>)
        ensures
            match waiting {
                Some(count) => self@.registered(id@) && count == self@.channels[id@].queue.len(),
                None => !self@.registered(id@),
            },
    {
        match self.find(id) {
            Some(i) => {
                proof {
                    lemma_found(self.channels@, id@, i as int);
                }
                Some(self.channels[i].queue.len())
            },
            None => {
                proof {
                    lemma_absent(self.channels@, id@);
                }
                None
            },
        }
    }

    /// The server answers call number `call` with `reply`. Only the first
    /// answer to a call that was made is taken; the result says whether
    /// this one was.
    pub fn respond(&mut self, call: usize, reply: Result<serde_json::Value, RpcError>) -> (taken:
        bool)
        ensures
            final(self)@ == old(self)@.respond(call as nat, reply),
            taken == (call < old(self)@.calls.len() && old(self)@.calls[call as int].reply
                is Waiting),
    {
        if call >= self.calls.len() {
            return false;
        }
        let waiting = match &self.calls[call].reply {
            Reply::Waiting => true,
            _ => false,
        };
        if !waiting {
            return false;
        }
        self.calls[call].reply = Reply::Arrived(reply);
        assert(self@ =~= old(self)@.respond(call as nat, reply));
        true
    }

    /// The server pushes the notification `payload` for `id`. It is dropped
    /// where `id` has no channel or a closed one; the result says whether a
    /// channel took it.
    pub fn push(&mut self, id: &SubscriptionId, payload: serde_json::Value) -> (taken: bool)
        ensures
            final(self)@ == old(self)@.route(id@, payload),
            taken == old(self)@.takes(id@),
    {
        match self.find(id) {
            Some(i) => {
                proof {
                    lemma_found(self.channels@, id@, i as int);
                }
                if self.channels[i].closed {
                    false
                } else {
                    self.channels[i].queue.push(payload);
                    proof {
                        lemma_update(old(self).channels@, id@, i as int, self.channels@[i as int]);
                        assert(self.channels@ =~= old(self).channels@.update(
                            i as int,
                            self.channels@[i as int],
                        ));
                        assert(self@ =~= old(self)@.route(id@, payload));
                    }
                    true
                }
            },
            None => {
                proof {
                    lemma_absent(self.channels@, id@);
                }
                false
            },
        }
    }

    /// Whether the connection is up.
    pub fn is_alive(&self) -> (alive: bool)
        ensures
            alive == self@.alive,
    {
        self.alive
    }

    /// The connection goes down: every channel is closed, and no id is
    /// registered from now on.
    pub fn shutdown(&mut self)
        ensures
            final(self)@ == old(self)@.shut(),
    {
        self.alive = false;
        let mut i: usize = 0;
        while i < self.channels.len()
            invariant
                self.calls == old(self).calls,
                !self.alive,
                i <= self.channels.len(),
                self.channels@.len() == old(self).channels@.len(),
                forall|j: int|
                    0 <= j < i ==> {
                        &&& (#[trigger] self.channels@[j]).id@ == old(self).channels@[j].id@
                        &&& self.channels@[j].queue@ == old(self).channels@[j].queue@
                        &&& self.channels@[j].closed
                    },
                forall|j: int|
                    i <= j < self.channels.len() ==> (#[trigger] self.channels@[j]) == old(
                        self,
                    ).channels@[j],
            decreases self.channels.len() - i,
        {
            self.channels[i].closed = true;
            i = i + 1;
        }
        proof {
            lemma_shut(old(self).channels@, self.channels@);
            assert(self@ =~= old(self)@.shut());
        }
    }

    /// The connection closes the channel of `id`: what waits in it can
    /// still be read, and nothing more arrives.
    pub fn close(&mut self, id: &SubscriptionId)
        ensures
            final(self)@ == old(self)@.close(id@),
    {
        match self.find(id) {
            Some(i) => {
                proof {
                    lemma_found(self.channels@, id@, i as int);
                }
                self.channels[i].closed = true;
                proof {
                    lemma_update(old(self).channels@, id@, i as int, self.channels@[i as int]);
                    assert(self.channels@ =~= old(self).channels@.update(
                        i as int,
                        self.channels@[i as int],
                    ));
                    assert(self@ =~= old(self)@.close(id@));
                }
            },
            None => {
                proof {
                    lemma_absent(self.channels@, id@);
                }
            },
        }
    }
}

impl Transport for Loopback {
    type Out = Ticket;

    closed spec fn view(&self) -> Connection {
        Connection {
            calls: self.calls@.map_values(|call: Call| call.record()),
            channels: registry(self.channels@),
            alive: self.alive,
        }
    }

    closed spec fn call_of(out: &Ticket) -> nat {
        out.call as nat
    }

    fn execute(&mut self, method: &str, params: Vec<serde_json::Value>) -> (out: Ticket) {
        let call = self.calls.len();
        self.calls.push(Call { method: method.to_owned(), params, reply: Reply::Waiting });
        assert(self@ =~= old(self)@.execute(method@, params@));
        Ticket { call }
    }

    fn poll_response(&mut self, out: &Ticket) -> (r: Poll<Result<serde_json::Value, RpcError>>) {
        let call = out.call;
        if call >= self.calls.len() {
            return Poll::Pending;
        }
        let arrived = match &self.calls[call].reply {
            Reply::Arrived(_) => true,
            _ => false,
        };
        if !arrived {
            return Poll::Pending;
        }
        let mut reply = Reply::Delivered;
        core::mem::swap(&mut self.calls[call].reply, &mut reply);
        assert(self@ =~= old(self)@.deliver(call as nat));
        match reply {
            Reply::Arrived(response) => Poll::Ready(response),
            _ => Poll::Pending,
        }
    }
}

impl DuplexTransport for Loopback {
    type NotificationStream = Receiver;

    closed spec fn stream_id(rx: &Receiver) -> Seq<char> {
        rx.id@
    }

    /// A refusal names the id that was refused.
    fn subscribe(&mut self, id: SubscriptionId) -> (r: Result<Receiver, RpcError>)
        ensures
            r matches Err(RpcError::Registration(refused)) ==> refused@ == id@,
            r matches Err(RpcError::Transport(refused)) ==> refused@ == id@,
    {
        match self.find(&id) {
            Some(i) => {
                proof {
                    lemma_found(self.channels@, id@, i as int);
                }
                Err(RpcError::Registration(id.as_str().to_owned()))
            },
            None => {
                proof {
                    lemma_absent(self.channels@, id@);
                }
                if !self.alive {
                    return Err(RpcError::Transport(id.as_str().to_owned()));
                }
                self.channels.push(Entry { id: id.clone(), queue: Vec::new(), closed: false });
                proof {
                    assert(self.channels@.drop_last() =~= old(self).channels@);
                    assert(self@ =~= old(self)@.register(id@));
                }
                Ok(Receiver { id })
            },
        }
    }

    fn unsubscribe(&mut self, id: SubscriptionId) {
        loop
            invariant
                self.calls == old(self).calls,
                self.alive == old(self).alive,
                registry(self.channels@).remove(id@) == registry(old(self).channels@).remove(id@),
            ensures
                self.calls == old(self).calls,
                self.alive == old(self).alive,
                registry(self.channels@) == registry(old(self).channels@).remove(id@),
            decreases self.channels.len(),
        {
            match self.find(&id) {
                Some(i) => {
                    proof {
                        lemma_remove(self.channels@, id@, i as int);
                    }
                    let _ = self.channels.remove(i);
                },
                None => {
                    proof {
                        lemma_absent(self.channels@, id@);
                        assert(registry(self.channels@).remove(id@) =~= registry(self.channels@));
                    }
                    break ;
                },
            }
        }
        assert(self@ =~= old(self)@.deregister(id@));
    }

    fn poll_next(&mut self, rx: &Receiver) -> (r: Poll<Option<serde_json::Value>>) {
        match self.find(&rx.id) {
            Some(i) => {
                proof {
                    lemma_found(self.channels@, rx.id@, i as int);
                }
                if self.channels[i].queue.len() > 0 {
                    let payload = self.channels[i].queue.remove(0);
                    proof {
                        lemma_update(
                            old(self).channels@,
                            rx.id@,
                            i as int,
                            self.channels@[i as int],
                        );
                        assert(self.channels@ =~= old(self).channels@.update(
                            i as int,
                            self.channels@[i as int],
                        ));
                        assert(self.channels@[i as int].queue@ =~= old(
                            self,
                        ).channels@[i as int].queue@.skip(1));
                        assert(self@ =~= old(self)@.advance(rx.id@));
                    }
                    Poll::Ready(Some(payload))
                } else if self.channels[i].closed {
                    Poll::Ready(None)
                } else {
                    Poll::Pending
                }
            },
            None => {
                proof {
                    lemma_absent(self.channels@, rx.id@);
                }
                Poll::Ready(None)
            },
        }
    }
}

} // verus!
