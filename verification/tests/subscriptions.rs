use platon_rpc::api::platon_subscribe::{PlatONSubscribe, SubscriptionId, SubscriptionStream};
use platon_rpc::api::Namespace;
use platon_rpc::error::RpcError;
use platon_rpc::transport::{DuplexTransport, Poll};
use platon_rpc::transports::loopback::Loopback;
use serde_json::Value;

fn text(s: &str) -> Value {
    Value::String(s.to_string())
}

fn id(s: &str) -> SubscriptionId {
    SubscriptionId::from(s.to_string())
}

fn header(number: u64) -> Value {
    let fields: Vec<(&str, Value)> = vec![
        ("number", text(&format!("0x{:x}", number))),
        ("parentHash", text("0x00")),
    ];
    fields.into_iter().collect()
}

fn open(transport: &mut Loopback, name: &str) -> SubscriptionStream<Loopback, String> {
    match SubscriptionStream::new(transport, id(name)) {
        Ok(stream) => stream,
        Err(e) => panic!("the id was free, got {:?}", e),
    }
}

#[test]
fn ids_are_compared_by_their_text() {
    assert_eq!(id("0x1"), id("0x1"));
    assert_ne!(id("0x1"), id("0x2"));
    assert!(id("0x1") < id("0x2"));
    assert!(id("0x1").same_as(&id("0x1")));
    assert!(!id("0x1").same_as(&id("0x10")));
    assert_eq!(id("0x1").clone(), id("0x1"));
    assert_eq!(
        id("0xcd0c3e8af590364c09d0fa6a1210faf5").as_str(),
        "0xcd0c3e8af590364c09d0fa6a1210faf5"
    );
}

#[test]
fn new_heads_are_read_in_push_order_until_the_stream_is_dropped() {
    let mut platon = PlatONSubscribe::new(Loopback::new());
    let mut result = platon.subscribe_new_heads::<Value>();
    assert_eq!(platon.transport().method(0), Some("platon_subscribe"));
    assert_eq!(platon.transport().params(0), Some(&vec![text("newHeads")]));
    assert!(matches!(result.poll(platon.transport_mut()), Poll::Pending));
    assert!(!platon.transport().is_registered(&id("0x1")));

    assert!(platon.transport_mut().respond(0, Ok(text("0x1"))));
    let mut stream = match result.poll(platon.transport_mut()) {
        Poll::Ready(Ok(stream)) => stream,
        Poll::Ready(Err(e)) => panic!("the subscription failed: {:?}", e),
        Poll::Pending => panic!("the id had arrived"),
    };
    assert_eq!(stream.id(), &id("0x1"));
    assert!(platon.transport().is_registered(&id("0x1")));
    assert!(matches!(result.poll(platon.transport_mut()), Poll::Pending));

    assert!(platon.transport_mut().push(&id("0x1"), header(1)));
    assert!(platon.transport_mut().push(&id("0x1"), header(2)));
    assert!(platon.transport_mut().push(&id("0x1"), header(3)));
    assert_eq!(platon.transport().waiting(&id("0x1")), Some(3));

    assert_eq!(stream.poll_next(platon.transport_mut()), Poll::Ready(Some(Ok(header(1)))));
    assert_eq!(stream.poll_next(platon.transport_mut()), Poll::Ready(Some(Ok(header(2)))));
    assert_eq!(stream.poll_next(platon.transport_mut()), Poll::Ready(Some(Ok(header(3)))));
    assert_eq!(stream.poll_next(platon.transport_mut()), Poll::Pending);
    assert!(!stream.is_terminated());

    stream.discard(platon.transport_mut());
    assert!(stream.is_terminated());
    assert!(!platon.transport().is_registered(&id("0x1")));
    assert!(!platon.transport_mut().push(&id("0x1"), header(4)));
    assert_eq!(platon.transport().waiting(&id("0x1")), None);
    assert_eq!(stream.poll_next(platon.transport_mut()), Poll::Ready(None));
}

#[test]
fn pushes_come_out_in_order_for_each_subscription() {
    let mut transport = Loopback::new();
    let mut a = open(&mut transport, "a");
    let mut b = open(&mut transport, "b");
    assert!(transport.push(&id("a"), text("a1")));
    assert!(transport.push(&id("b"), text("b1")));
    assert!(transport.push(&id("a"), text("a2")));
    assert!(transport.push(&id("b"), text("b2")));
    assert!(transport.push(&id("a"), text("a3")));
    assert_eq!(b.poll_next(&mut transport), Poll::Ready(Some(Ok("b1".to_string()))));
    assert_eq!(a.poll_next(&mut transport), Poll::Ready(Some(Ok("a1".to_string()))));
    assert_eq!(a.poll_next(&mut transport), Poll::Ready(Some(Ok("a2".to_string()))));
    assert_eq!(b.poll_next(&mut transport), Poll::Ready(Some(Ok("b2".to_string()))));
    assert_eq!(b.poll_next(&mut transport), Poll::Pending);
    assert_eq!(a.poll_next(&mut transport), Poll::Ready(Some(Ok("a3".to_string()))));
    assert_eq!(a.poll_next(&mut transport), Poll::Pending);
}

#[test]
fn one_corrupted_push_fails_alone() {
    let mut transport = Loopback::new();
    let mut stream = open(&mut transport, "0x7");
    let pushes = vec![text("one"), text("two"), Value::from(3u64), text("four"), text("five")];
    for payload in pushes {
        assert!(transport.push(&id("0x7"), payload));
    }
    let mut items = Vec::new();
    while let Poll::Ready(Some(item)) = stream.poll_next(&mut transport) {
        items.push(item);
    }
    assert_eq!(items.len(), 5);
    assert_eq!(items[0], Ok("one".to_string()));
    assert_eq!(items[1], Ok("two".to_string()));
    assert!(matches!(items[2], Err(RpcError::Decoder(_))));
    assert_eq!(items[3], Ok("four".to_string()));
    assert_eq!(items[4], Ok("five".to_string()));
    assert_eq!(items.iter().filter(|item| item.is_err()).count(), 1);
    assert!(!stream.is_terminated());
    assert_eq!(stream.poll_next(&mut transport), Poll::Pending);
}

#[test]
fn a_closed_channel_is_drained_and_then_ends() {
    let mut transport = Loopback::new();
    let mut stream = open(&mut transport, "0x2");
    assert!(transport.push(&id("0x2"), text("last words")));
    transport.close(&id("0x2"));
    assert!(!transport.push(&id("0x2"), text("too late")));
    assert_eq!(stream.poll_next(&mut transport), Poll::Ready(Some(Ok("last words".to_string()))));
    assert!(!stream.is_terminated());
    assert_eq!(stream.poll_next(&mut transport), Poll::Ready(None));
    assert!(stream.is_terminated());
    assert_eq!(stream.poll_next(&mut transport), Poll::Ready(None));
}

#[test]
fn a_terminated_stream_stays_terminated() {
    let mut transport = Loopback::new();
    let mut stream = open(&mut transport, "0x3");
    transport.close(&id("0x3"));
    assert_eq!(stream.poll_next(&mut transport), Poll::Ready(None));
    transport.unsubscribe(id("0x3"));
    let mut again = open(&mut transport, "0x3");
    assert!(transport.push(&id("0x3"), text("for the new stream")));
    assert_eq!(stream.poll_next(&mut transport), Poll::Ready(None));
    assert_eq!(
        again.poll_next(&mut transport),
        Poll::Ready(Some(Ok("for the new stream".to_string())))
    );
}

#[test]
fn an_id_is_registered_once() {
    let mut transport = Loopback::new();
    let _stream = open(&mut transport, "0x1");
    assert!(transport.push(&id("0x1"), text("kept")));
    let second: Result<SubscriptionStream<Loopback, String>, RpcError> =
        SubscriptionStream::new(&mut transport, id("0x1"));
    match second {
        Err(RpcError::Registration(which)) => assert_eq!(which, "0x1"),
        Err(other) => panic!("expected a refusal of the id, got {:?}", other),
        Ok(_) => panic!("the id was taken"),
    }
    assert!(transport.is_registered(&id("0x1")));
    assert_eq!(transport.waiting(&id("0x1")), Some(1));
    assert!(matches!(transport.subscribe(id("0x1")), Err(RpcError::Registration(_))));
}

#[test]
fn dropping_a_stream_removes_its_channel() {
    let mut transport = Loopback::new();
    let mut stream = open(&mut transport, "0x9");
    let _other = open(&mut transport, "0xa");
    assert!(transport.push(&id("0x9"), text("unread")));
    stream.discard(&mut transport);
    assert!(!transport.is_registered(&id("0x9")));
    assert!(transport.is_registered(&id("0xa")));
    assert!(!transport.push(&id("0x9"), text("nobody listens")));
    assert!(transport.push(&id("0xa"), text("still here")));
    assert_eq!(transport.request_count(), 1);
    assert_eq!(transport.method(0), Some("platon_unsubscribe"));
    assert_eq!(transport.params(0), Some(&vec![text("0x9")]));
}

#[test]
fn unsubscribe_resolves_to_the_answer_of_the_server() {
    let mut transport = Loopback::new();
    let stream = open(&mut transport, "0x5");
    let mut call = stream.unsubscribe(&mut transport);
    assert!(!transport.is_registered(&id("0x5")));
    assert_eq!(transport.method(0), Some("platon_unsubscribe"));
    assert_eq!(transport.params(0), Some(&vec![text("0x5")]));
    assert_eq!(call.poll(&mut transport), Poll::Pending);
    assert!(transport.respond(0, Ok(Value::Bool(true))));
    assert_eq!(call.poll(&mut transport), Poll::Ready(Ok(true)));
}

#[test]
fn unsubscribe_after_drop_is_no_error() {
    let mut transport = Loopback::new();
    let mut stream = open(&mut transport, "0x6");
    stream.discard(&mut transport);
    stream.discard(&mut transport);
    let mut call = stream.unsubscribe(&mut transport);
    assert!(!transport.is_registered(&id("0x6")));
    assert_eq!(transport.request_count(), 3);
    assert!(transport.respond(2, Ok(Value::Bool(false))));
    assert_eq!(call.poll(&mut transport), Poll::Ready(Ok(false)));
}

#[test]
fn unsubscribing_an_unknown_id_changes_nothing() {
    let mut transport = Loopback::new();
    let _stream = open(&mut transport, "known");
    assert!(transport.push(&id("known"), text("kept")));
    transport.unsubscribe(id("unknown"));
    transport.unsubscribe(id("unknown"));
    assert!(transport.is_registered(&id("known")));
    assert_eq!(transport.waiting(&id("known")), Some(1));
    assert_eq!(transport.request_count(), 0);
}

#[test]
fn a_failed_subscribe_request_registers_nothing() {
    let mut platon = PlatONSubscribe::new(Loopback::new());
    let mut result = platon.subscribe_new_heads::<Value>();
    assert!(platon
        .transport_mut()
        .respond(0, Err(RpcError::Rpc("subscriptions are not supported".to_string()))));
    match result.poll(platon.transport_mut()) {
        Poll::Ready(Err(e)) => {
            assert_eq!(e, RpcError::Rpc("subscriptions are not supported".to_string()))
        }
        Poll::Ready(Ok(_)) => panic!("there must be no stream"),
        Poll::Pending => panic!("the failure had arrived"),
    }
    assert_eq!(platon.transport().waiting(&id("0x1")), None);
    assert!(!platon.transport_mut().push(&id("0x1"), header(1)));
    assert_eq!(platon.transport().request_count(), 1);
}

#[test]
fn an_id_that_is_no_string_registers_nothing() {
    let mut platon = PlatONSubscribe::new(Loopback::new());
    let mut result = platon.subscribe_new_heads::<Value>();
    assert!(platon.transport_mut().respond(0, Ok(Value::from(1u64))));
    match result.poll(platon.transport_mut()) {
        Poll::Ready(Err(RpcError::Decoder(_))) => {}
        Poll::Ready(Err(other)) => panic!("expected a decode failure, got {:?}", other),
        Poll::Ready(Ok(_)) => panic!("there must be no stream"),
        Poll::Pending => panic!("the response had arrived"),
    }
    assert!(!platon.transport().is_registered(&id("1")));
}

#[test]
fn a_granted_id_that_is_taken_gives_no_second_stream() {
    let mut platon = PlatONSubscribe::new(Loopback::new());
    let _first = open(platon.transport_mut(), "0x1");
    assert!(platon.transport_mut().push(&id("0x1"), text("kept")));
    let mut result = platon.subscribe_new_heads::<Value>();
    assert!(platon.transport_mut().respond(0, Ok(text("0x1"))));
    match result.poll(platon.transport_mut()) {
        Poll::Ready(Err(RpcError::Registration(_))) => {}
        Poll::Ready(Err(other)) => panic!("expected a refusal of the id, got {:?}", other),
        Poll::Ready(Ok(_)) => panic!("there must be no second stream"),
        Poll::Pending => panic!("the id had arrived"),
    }
    assert_eq!(platon.transport().waiting(&id("0x1")), Some(1));
}

#[test]
fn a_connection_that_is_down_registers_nothing() {
    let mut transport = Loopback::new();
    let mut stream = open(&mut transport, "0x1");
    assert!(transport.push(&id("0x1"), text("before")));
    assert!(transport.is_alive());
    transport.shutdown();
    assert!(!transport.is_alive());
    assert!(!transport.push(&id("0x1"), text("after")));
    let refused: Result<SubscriptionStream<Loopback, String>, RpcError> =
        SubscriptionStream::new(&mut transport, id("0x2"));
    match refused {
        Err(RpcError::Transport(which)) => assert_eq!(which, "0x2"),
        Err(other) => panic!("expected a failure of the connection, got {:?}", other),
        Ok(_) => panic!("the connection was down"),
    }
    assert!(!transport.is_registered(&id("0x2")));
    assert!(matches!(transport.subscribe(id("0x1")), Err(RpcError::Registration(_))));
    assert_eq!(stream.poll_next(&mut transport), Poll::Ready(Some(Ok("before".to_string()))));
    assert_eq!(stream.poll_next(&mut transport), Poll::Ready(None));
    assert!(stream.is_terminated());
}

#[test]
fn a_granted_id_on_a_connection_that_is_down_gives_no_stream() {
    let mut platon = PlatONSubscribe::new(Loopback::new());
    let mut result = platon.subscribe_new_heads::<Value>();
    assert!(platon.transport_mut().respond(0, Ok(text("0x1"))));
    platon.transport_mut().shutdown();
    match result.poll(platon.transport_mut()) {
        Poll::Ready(Err(RpcError::Transport(_))) => {}
        Poll::Ready(Err(other)) => panic!("expected a failure of the connection, got {:?}", other),
        Poll::Ready(Ok(_)) => panic!("there must be no stream"),
        Poll::Pending => panic!("the id had arrived"),
    }
    assert!(!platon.transport().is_registered(&id("0x1")));
}
