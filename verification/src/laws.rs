//! What holds of every connection, whatever happens over it.
//!
//! The contracts of this crate describe one step each. The laws below put
//! steps together. They are stated over the same functions as the
//! contracts: [`Connection`] and its steps, [`released`], [`polls_to`] and
//! [`decoded`].
use crate::api::platon_subscribe::{polls_to, released};
use crate::error::RpcError;
use crate::json::{decoded, json_string, Decode};
use crate::transport::{Connection, Poll};
use vstd::prelude::*;

verus! {

/// The connection after the notifications `pushes` arrived for `id`, one
/// after the other.
pub open spec fn after_pushes(
    connection: Connection,
    id: Seq<char>,
    pushes: Seq<serde_json::Value>,
) -> Connection
    decreases pushes.len(),
{
    if pushes.len() == 0 {
        connection
    } else {
        after_pushes(connection, id, pushes.drop_last()).route(id, pushes.last())
    }
}

/// The connection after the channel of `id` was polled `polls` times.
pub open spec fn after_polls(connection: Connection, id: Seq<char>, polls: nat) -> Connection
    decreases polls,
{
    if polls == 0 {
        connection
    } else {
        after_polls(connection, id, (polls - 1) as nat).advance(id)
    }
}

/// What the channel of `id` gives to the poll that follows `before` earlier
/// ones.
pub open spec fn nth_poll(connection: Connection, id: Seq<char>, before: nat) -> Poll<
    Option<serde_json::Value>,
> {
    after_polls(connection, id, before).next_item(id)
}

/// A response goes to the call that it answers and to no other. Answering
/// call `a`, handing its response over, or sending a new request leaves
/// what waits for any other call `b` as it was; and a request that was just
/// sent has no response.
pub proof fn law_calls_do_not_mix(
    connection: Connection,
    a: nat,
    b: nat,
    reply: Result<serde_json::Value, RpcError>,
    method: Seq<char>,
    params: Seq<serde_json::Value>,
)
    requires
        a != b,
    ensures
        connection.respond(a, reply).arrived(b) == connection.arrived(b),
        connection.deliver(a).arrived(b) == connection.arrived(b),
        b < connection.calls.len() ==> connection.execute(method, params).arrived(b)
            == connection.arrived(b),
        connection.execute(method, params).arrived(connection.calls.len()) is None,
{
}

/// A call resolves at most once, and to the first response that arrived
/// for it. The first response to a call that waits is the one that is
/// handed over; once it is handed over the call has nothing more to give;
/// and a later response to the same call changes nothing, before the
/// handing over or after.
pub proof fn law_calls_resolve_once(
    connection: Connection,
    call: nat,
    first: Result<serde_json::Value, RpcError>,
    second: Result<serde_json::Value, RpcError>,
)
    ensures
        call < connection.calls.len() && connection.calls[call as int].reply is Waiting
            ==> connection.respond(call, first).arrived(call) == Some(first),
        connection.deliver(call).arrived(call) is None,
        connection.respond(call, first).respond(call, second) == connection.respond(call, first),
        connection.respond(call, first).deliver(call).respond(call, second) == connection.respond(
            call,
            first,
        ).deliver(call),
        connection.deliver(call).deliver(call) == connection.deliver(call),
{
}

/// What happens to the calls leaves the registry alone, and what happens
/// to the registry leaves the calls alone.
pub proof fn law_calls_and_channels_apart(
    connection: Connection,
    call: nat,
    reply: Result<serde_json::Value, RpcError>,
    method: Seq<char>,
    params: Seq<serde_json::Value>,
    id: Seq<char>,
    payload: serde_json::Value,
)
    ensures
        connection.execute(method, params).channels == connection.channels,
        connection.respond(call, reply).channels == connection.channels,
        connection.deliver(call).channels == connection.channels,
        connection.execute(method, params).alive == connection.alive,
        connection.respond(call, reply).alive == connection.alive,
        connection.deliver(call).alive == connection.alive,
        connection.register(id).calls == connection.calls,
        connection.deregister(id).calls == connection.calls,
        connection.route(id, payload).calls == connection.calls,
        connection.close(id).calls == connection.calls,
        connection.advance(id).calls == connection.calls,
{
}

/// Notifications go to their own channel and to no other. After `pushes`
/// arrived for a channel that is open, that channel holds what waited in
/// it and then `pushes`, and is still open; every other channel, and every
/// call, is as it was.
pub proof fn law_pushes_go_to_their_channel(
    connection: Connection,
    id: Seq<char>,
    pushes: Seq<serde_json::Value>,
)
    requires
        connection.takes(id),
    ensures
        after_pushes(connection, id, pushes).takes(id),
        after_pushes(connection, id, pushes).channels[id].queue == connection.channels[id].queue
            + pushes,
        after_pushes(connection, id, pushes).calls == connection.calls,
        after_pushes(connection, id, pushes).channels.remove(id) == connection.channels.remove(id),
    decreases pushes.len(),
{
    if pushes.len() > 0 {
        law_pushes_go_to_their_channel(connection, id, pushes.drop_last());
        let before = after_pushes(connection, id, pushes.drop_last());
        let after = before.route(id, pushes.last());
        assert(after.channels[id].queue =~= connection.channels[id].queue + pushes);
        assert(after.channels.remove(id) =~= before.channels.remove(id));
    } else {
        assert(connection.channels[id].queue + pushes =~= connection.channels[id].queue);
    }
}

/// Polling a channel takes from its front, and keeps it registered.
proof fn lemma_after_polls(connection: Connection, id: Seq<char>, polls: nat)
    requires
        connection.registered(id),
        polls <= connection.channels[id].queue.len(),
    ensures
        after_polls(connection, id, polls).registered(id),
        after_polls(connection, id, polls).channels[id].queue == connection.channels[id].queue.skip(
            polls as int,
        ),
        after_polls(connection, id, polls).channels[id].closed == connection.channels[id].closed,
    decreases polls,
{
    if polls > 0 {
        lemma_after_polls(connection, id, (polls - 1) as nat);
        let before = after_polls(connection, id, (polls - 1) as nat);
        assert(before.advance(id).channels[id].queue =~= connection.channels[id].queue.skip(
            polls as int,
        ));
    } else {
        assert(connection.channels[id].queue.skip(0) =~= connection.channels[id].queue);
    }
}

/// Notifications come out in the order they went in, each once. After the
/// notifications `pushes` arrived for a channel that is open, the polls of
/// that channel give what waited in it before and then `pushes`, one item
/// for each poll and in that order; the poll after the last of them gives
/// nothing yet. Nothing is lost, repeated or moved.
pub proof fn law_notifications_in_order(
    connection: Connection,
    id: Seq<char>,
    pushes: Seq<serde_json::Value>,
    k: nat,
)
    requires
        connection.takes(id),
    ensures
        ({
            let waiting = connection.channels[id].queue + pushes;
            let pushed = after_pushes(connection, id, pushes);
            &&& k < waiting.len() ==> nth_poll(pushed, id, k) == Poll::Ready(
                Some(waiting[k as int]),
            )
            &&& k == waiting.len() ==> nth_poll(pushed, id, k) == Poll::<
                Option<serde_json::Value>,
            >::Pending
        }),
{
    let pushed = after_pushes(connection, id, pushes);
    law_pushes_go_to_their_channel(connection, id, pushes);
    if k <= pushed.channels[id].queue.len() {
        lemma_after_polls(pushed, id, k);
    }
}

/// A stream yields what was pushed for it, in order, each notification
/// read on its own. Let `pushes` arrive for a channel that is open, and let
/// an active stream of `I` read that channel. Its poll number `k`, counted
/// from zero, has a notification to give as long as any are left: it gives
/// an item, the item is the reading of notification `k` of what waited and
/// then `pushes`, success or failure, and the stream stays active.
pub proof fn law_stream_yields_pushes<I: Decode>(
    connection: Connection,
    id: Seq<char>,
    pushes: Seq<serde_json::Value>,
    k: nat,
    r: Poll<Option<Result<I, RpcError>>>,
    after: bool,
)
    requires
        connection.takes(id),
        k < connection.channels[id].queue.len() + pushes.len(),
        polls_to(true, after_polls(after_pushes(connection, id, pushes), id, k), id, r, after),
    ensures
        r matches Poll::Ready(Some(item)) && decoded(
            (connection.channels[id].queue + pushes)[k as int],
            item,
        ),
        after,
{
    law_notifications_in_order(connection, id, pushes, k);
}

/// What was pushed before a channel closed is still read, and then the
/// stream ends. After `pushes` arrived for an open channel and the channel
/// was closed, the polls give what waited and then `pushes`, and the poll
/// after the last of them gives the end.
pub proof fn law_closed_channel_drains(
    connection: Connection,
    id: Seq<char>,
    pushes: Seq<serde_json::Value>,
    k: nat,
)
    requires
        connection.takes(id),
    ensures
        ({
            let waiting = connection.channels[id].queue + pushes;
            let closed = after_pushes(connection, id, pushes).close(id);
            &&& k < waiting.len() ==> nth_poll(closed, id, k) == Poll::Ready(
                Some(waiting[k as int]),
            )
            &&& k == waiting.len() ==> nth_poll(closed, id, k) == Poll::<
                Option<serde_json::Value>,
            >::Ready(None)
        }),
{
    let closed = after_pushes(connection, id, pushes).close(id);
    law_pushes_go_to_their_channel(connection, id, pushes);
    if k <= closed.channels[id].queue.len() {
        lemma_after_polls(closed, id, k);
    }
}

/// One notification that cannot be read spoils only its own item. Let a
/// stream of `I` yield `items` for the notifications `pushes`, item by
/// item, and let `bad` be the one notification among them that `I` does not
/// accept. Then the stream has yielded as many items as there were
/// notifications, the item for `bad` is a decode failure, and every other
/// item is the value that its own notification holds.
pub proof fn law_one_bad_notification<I: Decode>(
    pushes: Seq<serde_json::Value>,
    items: Seq<Result<I, RpcError>>,
    bad: int,
)
    requires
        items.len() == pushes.len(),
        forall|k: int| 0 <= k < pushes.len() ==> decoded(pushes[k], #[trigger] items[k]),
        0 <= bad < pushes.len(),
        forall|k: int| 0 <= k < pushes.len() ==> (I::accepts(#[trigger] pushes[k]) <==> k != bad),
    ensures
        items[bad] matches Err(e) && e is Decoder,
        forall|k: int|
            0 <= k < pushes.len() && k != bad ==> ((#[trigger] items[k]) matches Ok(item)
                && I::decodes(pushes[k], item)),
        items.filter(|item: Result<I, RpcError>| item is Err).len() == 1,
{
    assert(decoded(pushes[bad], items[bad]));
    assert forall|k: int| 0 <= k < pushes.len() && k != bad implies ((#[trigger] items[k])
        matches Ok(item) && I::decodes(pushes[k], item)) by {
        assert(I::accepts(pushes[k]));
        assert(decoded(pushes[k], items[k]));
    }
    lemma_one_failure(pushes, items, bad, pushes.len() as int);
    assert(items.take(pushes.len() as int) =~= items);
}

/// The failures among the first `n` items: none before `bad`, one from
/// `bad` on.
proof fn lemma_one_failure<I: Decode>(
    pushes: Seq<serde_json::Value>,
    items: Seq<Result<I, RpcError>>,
    bad: int,
    n: int,
)
    requires
        items.len() == pushes.len(),
        0 <= n <= items.len(),
        0 <= bad < pushes.len(),
        forall|k: int| 0 <= k < items.len() ==> ((#[trigger] items[k]) is Err <==> k == bad),
    ensures
        items.take(n).filter(|item: Result<I, RpcError>| item is Err).len() == (if n <= bad {
            0nat
        } else {
            1nat
        }),
    decreases n,
{
    if n == 0 {
        assert(items.take(0) =~= Seq::<Result<I, RpcError>>::empty());
    } else {
        lemma_one_failure(pushes, items, bad, n - 1);
        assert(items.take(n).drop_last() =~= items.take(n - 1));
        assert(items.take(n).last() == items[n - 1]);
        reveal(Seq::filter);
    }
}

/// A connection that went down ends its streams and starts no new ones.
/// Every id keeps its channel, with what waited in it, but the channel is
/// closed: a notification that still arrives is dropped, and a poll gives
/// what waited and then the end. No id is admitted any more.
pub proof fn law_down_connection(
    connection: Connection,
    id: Seq<char>,
    payload: serde_json::Value,
    k: nat,
)
    ensures
        !connection.shut().admits(id),
        connection.shut().registered(id) == connection.registered(id),
        connection.shut().route(id, payload) == connection.shut(),
        connection.shut().calls == connection.calls,
        connection.registered(id) ==> ({
            let waiting = connection.channels[id].queue;
            &&& k < waiting.len() ==> nth_poll(connection.shut(), id, k) == Poll::Ready(
                Some(waiting[k as int]),
            )
            &&& k == waiting.len() ==> nth_poll(connection.shut(), id, k) == Poll::<
                Option<serde_json::Value>,
            >::Ready(None)
        }),
{
    if connection.registered(id) && k <= connection.channels[id].queue.len() {
        lemma_after_polls(connection.shut(), id, k);
    }
}

/// A subscription that was given up is gone. After it was released, its id
/// has no channel; a notification that still arrives for it is dropped,
/// and changes nothing; and a poll of its channel gives the end.
pub proof fn law_released_is_gone(
    connection: Connection,
    id: Seq<char>,
    payload: serde_json::Value,
)
    ensures
        !released(connection, id).registered(id),
        released(connection, id).route(id, payload) == released(connection, id),
        released(connection, id).next_item(id) == Poll::<Option<serde_json::Value>>::Ready(None),
        released(connection, id).advance(id) == released(connection, id),
{
}

/// Giving a subscription up again does no harm. Removing an id that has no
/// channel changes nothing, so the second release of an id leaves the
/// registry as the first left it, and every other subscription keeps its
/// channel throughout. All that the second release adds is its own
/// request to the server.
pub proof fn law_release_twice(connection: Connection, id: Seq<char>, other: Seq<char>)
    ensures
        !connection.registered(id) ==> connection.deregister(id) == connection,
        connection.deregister(id).deregister(id) == connection.deregister(id),
        released(released(connection, id), id).channels == released(connection, id).channels,
        released(released(connection, id), id) == released(connection, id).execute(
            "platon_unsubscribe"@,
            seq![json_string(id)],
        ),
        other != id ==> released(connection, id).registered(other) == connection.registered(other),
        other != id && connection.registered(other) ==> released(connection, id).channels[other]
            == connection.channels[other],
{
    assert(connection.deregister(id).deregister(id) =~= connection.deregister(id));
    if !connection.registered(id) {
        assert(connection.deregister(id) =~= connection);
    }
    assert(released(released(connection, id), id) =~= released(connection, id).execute(
        "platon_unsubscribe"@,
        seq![json_string(id)],
    ));
}

} // verus!
