use platon_rpc::api::platon::PlatON;
use platon_rpc::api::Namespace;
use platon_rpc::error::RpcError;
use platon_rpc::helpers::CallFuture;
use platon_rpc::transport::{Poll, Transport};
use platon_rpc::transports::loopback::Loopback;
use platon_rpc::types::block::{BlockId, BlockNumber, TransactionId};
use platon_rpc::types::bytes::{Bytes, H160, H256};
use serde_json::Value;

fn text(s: &str) -> Value {
    Value::String(s.to_string())
}

fn ledger() -> String {
    "main".to_string()
}

fn address() -> H160 {
    H160([0x2a; 20])
}

fn address_text() -> Value {
    text(&format!("0x{}", "2a".repeat(20)))
}

fn hash() -> H256 {
    H256([0xab; 32])
}

fn hash_text() -> Value {
    text(&format!("0x{}", "ab".repeat(32)))
}

fn sent(platon: &PlatON<Loopback>, call: usize) -> (String, Vec<Value>) {
    let transport = platon.transport();
    (
        transport.method(call).expect("the call was made").to_string(),
        transport.params(call).expect("the call was made").clone(),
    )
}

#[test]
fn a_fresh_connection_has_sent_nothing() {
    let transport = Loopback::new();
    assert_eq!(transport.request_count(), 0);
    assert_eq!(transport.method(0), None);
    assert_eq!(transport.params(0), None);
}

#[test]
fn each_request_is_sent_exactly_once() {
    let mut platon = PlatON::new(Loopback::new());
    let _first = platon.accounts::<Value>();
    assert_eq!(platon.transport().request_count(), 1);
    let _second = platon.coinbase::<Value>();
    assert_eq!(platon.transport().request_count(), 2);
    assert_eq!(sent(&platon, 0), ("platon_accounts".to_string(), vec![]));
    assert_eq!(sent(&platon, 1), ("platon_coinbase".to_string(), vec![]));
}

#[test]
fn requests_that_name_only_the_ledger() {
    let mut platon = PlatON::new(Loopback::new());
    let _ = platon.block_number::<Value>(&ledger());
    let _ = platon.gas_price::<Value>(&ledger());
    let _ = platon.syncing::<Value>(&ledger());
    assert_eq!(sent(&platon, 0), ("platon_blockNumber".to_string(), vec![text("main")]));
    assert_eq!(sent(&platon, 1), ("platon_gasPrice".to_string(), vec![text("main")]));
    assert_eq!(sent(&platon, 2), ("platon_syncing".to_string(), vec![text("main")]));
}

#[test]
fn requests_about_an_account_default_to_the_latest_block() {
    let mut platon = PlatON::new(Loopback::new());
    let _ = platon.balance::<Value>(&ledger(), address(), None);
    let _ = platon.code::<Value>(&ledger(), address(), None);
    let _ = platon.transaction_count::<Value>(&ledger(), address(), None);
    let params = vec![text("main"), address_text(), text("latest")];
    assert_eq!(sent(&platon, 0), ("platon_balance".to_string(), params.clone()));
    assert_eq!(sent(&platon, 1), ("platon_getCode".to_string(), params.clone()));
    assert_eq!(sent(&platon, 2), ("platon_getTransactionCount".to_string(), params));
}

#[test]
fn requests_about_an_account_at_a_named_block() {
    let mut platon = PlatON::new(Loopback::new());
    let _ = platon.balance::<Value>(&ledger(), address(), Some(BlockNumber::Number(436)));
    let _ = platon.code::<Value>(&ledger(), address(), Some(BlockNumber::Earliest));
    let _ = platon.transaction_count::<Value>(&ledger(), address(), Some(BlockNumber::Pending));
    assert_eq!(
        sent(&platon, 0),
        ("platon_balance".to_string(), vec![text("main"), address_text(), text("0x1b4")])
    );
    assert_eq!(
        sent(&platon, 1),
        ("platon_getCode".to_string(), vec![text("main"), address_text(), text("earliest")])
    );
    assert_eq!(
        sent(&platon, 2),
        (
            "platon_getTransactionCount".to_string(),
            vec![text("main"), address_text(), text("pending")]
        )
    );
}

#[test]
fn call_takes_a_block_id() {
    let mut platon = PlatON::new(Loopback::new());
    let request = text("the call");
    let _ = platon.call::<Value>(&ledger(), request.clone(), None);
    let _ = platon.call::<Value>(&ledger(), request.clone(), Some(BlockNumber::Number(1).into()));
    let _ = platon.call::<Value>(&ledger(), request.clone(), Some(BlockId::Hash(hash())));
    assert_eq!(
        sent(&platon, 0),
        ("platon_call".to_string(), vec![text("main"), request.clone(), text("latest")])
    );
    assert_eq!(
        sent(&platon, 1),
        ("platon_call".to_string(), vec![text("main"), request.clone(), text("0x1")])
    );
    let (method, params) = sent(&platon, 2);
    assert_eq!(method, "platon_call");
    assert_eq!(params.len(), 3);
    assert_eq!(params[2].get("blockHash"), Some(&hash_text()));
    assert_eq!(params[2].as_object().map(|object| object.len()), Some(1));
}

#[test]
fn estimate_gas_leaves_the_block_out_unless_named() {
    let mut platon = PlatON::new(Loopback::new());
    let request = text("the call");
    let _ = platon.estimate_gas::<Value>(&ledger(), request.clone(), None);
    let _ = platon.estimate_gas::<Value>(&ledger(), request.clone(), Some(BlockNumber::Latest));
    assert_eq!(
        sent(&platon, 0),
        ("platon_estimateGas".to_string(), vec![text("main"), request.clone()])
    );
    assert_eq!(
        sent(&platon, 1),
        ("platon_estimateGas".to_string(), vec![text("main"), request, text("latest")])
    );
}

#[test]
fn block_is_asked_for_by_hash_or_by_number() {
    let mut platon = PlatON::new(Loopback::new());
    let _ = platon.block::<Value>(&ledger(), BlockId::Hash(hash()));
    let _ = platon.block::<Value>(&ledger(), BlockId::Number(BlockNumber::Number(16)));
    let _ = platon.block_with_txs::<Value>(&ledger(), BlockId::Hash(hash()));
    let _ = platon.block_with_txs::<Value>(&ledger(), BlockId::Number(BlockNumber::Latest));
    assert_eq!(
        sent(&platon, 0),
        ("platon_getBlockByHash".to_string(), vec![text("main"), hash_text(), Value::Bool(false)])
    );
    assert_eq!(
        sent(&platon, 1),
        (
            "platon_getBlockByNumber".to_string(),
            vec![text("main"), text("0x10"), Value::Bool(false)]
        )
    );
    assert_eq!(
        sent(&platon, 2),
        ("platon_getBlockByHash".to_string(), vec![text("main"), hash_text(), Value::Bool(true)])
    );
    assert_eq!(
        sent(&platon, 3),
        (
            "platon_getBlockByNumber".to_string(),
            vec![text("main"), text("latest"), Value::Bool(true)]
        )
    );
}

#[test]
fn block_transaction_count_by_hash_or_by_number() {
    let mut platon = PlatON::new(Loopback::new());
    let _ = platon.block_transaction_count::<Value>(&ledger(), BlockId::Hash(hash()));
    let _ = platon
        .block_transaction_count::<Value>(&ledger(), BlockId::Number(BlockNumber::Number(0)));
    assert_eq!(
        sent(&platon, 0),
        ("platon_getBlockTransactionCountByHash".to_string(), vec![text("main"), hash_text()])
    );
    assert_eq!(
        sent(&platon, 1),
        ("platon_getBlockTransactionCountByNumber".to_string(), vec![text("main"), text("0x0")])
    );
}

#[test]
fn transaction_is_asked_for_in_three_ways() {
    let mut platon = PlatON::new(Loopback::new());
    let _ = platon.transaction::<Value>(&ledger(), TransactionId::Hash(hash()));
    let _ = platon.transaction::<Value>(&ledger(), TransactionId::Block(BlockId::Hash(hash()), 5));
    let _ = platon.transaction::<Value>(
        &ledger(),
        TransactionId::Block(BlockId::Number(BlockNumber::Number(255)), 17),
    );
    assert_eq!(
        sent(&platon, 0),
        ("platon_getTransactionByHash".to_string(), vec![text("main"), hash_text()])
    );
    assert_eq!(
        sent(&platon, 1),
        (
            "platon_getTransactionByBlockHashAndIndex".to_string(),
            vec![text("main"), hash_text(), text("0x5")]
        )
    );
    assert_eq!(
        sent(&platon, 2),
        (
            "platon_getTransactionByBlockNumberAndIndex".to_string(),
            vec![text("0xff"), text("0x11")]
        )
    );
}

#[test]
fn requests_that_carry_a_hash_or_bytes() {
    let mut platon = PlatON::new(Loopback::new());
    let _ = platon.transaction_receipt::<Value>(&ledger(), hash());
    let _ = platon.send_raw_transaction::<Value>(&ledger(), Bytes(vec![1, 2, 3, 4]));
    let _ = platon.send_transaction::<Value>(&ledger(), text("the transaction"));
    let _ = platon.sign::<Value>(&ledger(), address(), Bytes(vec![0xde, 0xad]));
    assert_eq!(
        sent(&platon, 0),
        ("platon_getTransactionReceipt".to_string(), vec![text("main"), hash_text()])
    );
    assert_eq!(
        sent(&platon, 1),
        ("platon_sendRawTransaction".to_string(), vec![text("main"), text("0x01020304")])
    );
    assert_eq!(
        sent(&platon, 2),
        ("platon_sendTransaction".to_string(), vec![text("main"), text("the transaction")])
    );
    assert_eq!(
        sent(&platon, 3),
        ("platon_sign".to_string(), vec![text("main"), address_text(), text("0xdead")])
    );
}

#[test]
fn consensus_status_names_the_ledger() {
    let mut debug = platon_rpc::api::debug::Debug::new(Loopback::new());
    let _ = debug.consensus_status::<Value>(&ledger());
    assert_eq!(debug.transport().method(0), Some("debug_consensusStatus"));
    assert_eq!(debug.transport().params(0), Some(&vec![text("main")]));
}

#[test]
fn a_call_is_pending_until_its_response_arrives() {
    let mut platon = PlatON::new(Loopback::new());
    let mut call = platon.gas_price::<String>(&ledger());
    assert_eq!(call.poll(platon.transport_mut()), Poll::Pending);
    assert!(!call.is_spent());
    assert!(platon.transport_mut().respond(0, Ok(text("0x3b9aca00"))));
    assert_eq!(call.poll(platon.transport_mut()), Poll::Ready(Ok("0x3b9aca00".to_string())));
    assert!(call.is_spent());
}

#[test]
fn a_call_resolves_at_most_once() {
    let mut platon = PlatON::new(Loopback::new());
    let mut call = platon.gas_price::<String>(&ledger());
    assert!(platon.transport_mut().respond(0, Ok(text("first"))));
    assert!(!platon.transport_mut().respond(0, Ok(text("second"))));
    assert_eq!(call.poll(platon.transport_mut()), Poll::Ready(Ok("first".to_string())));
    assert!(!platon.transport_mut().respond(0, Ok(text("third"))));
    assert_eq!(call.poll(platon.transport_mut()), Poll::Pending);
    assert_eq!(call.poll(platon.transport_mut()), Poll::Pending);
}

#[test]
fn a_response_to_a_call_that_was_never_made_is_not_taken() {
    let mut transport = Loopback::new();
    assert!(!transport.respond(0, Ok(text("nobody asked"))));
    assert!(!transport.respond(7, Err(RpcError::Transport("closed".to_string()))));
    assert_eq!(transport.request_count(), 0);
}

#[test]
fn gas_price_completes_while_balance_is_pending() {
    let mut platon = PlatON::new(Loopback::new());
    let mut balance = platon.balance::<String>(&ledger(), address(), None);
    let mut gas_price = platon.gas_price::<String>(&ledger());
    assert_eq!(balance.poll(platon.transport_mut()), Poll::Pending);
    assert_eq!(gas_price.poll(platon.transport_mut()), Poll::Pending);

    assert!(platon.transport_mut().respond(1, Ok(text("0x9184e72a000"))));
    assert_eq!(balance.poll(platon.transport_mut()), Poll::Pending);
    assert_eq!(
        gas_price.poll(platon.transport_mut()),
        Poll::Ready(Ok("0x9184e72a000".to_string()))
    );
    assert!(gas_price.is_spent());
    assert!(!balance.is_spent());

    assert!(platon.transport_mut().respond(0, Ok(text("0x0234c8a3397aab58"))));
    assert_eq!(gas_price.poll(platon.transport_mut()), Poll::Pending);
    assert!(gas_price.is_spent());
    assert_eq!(
        balance.poll(platon.transport_mut()),
        Poll::Ready(Ok("0x0234c8a3397aab58".to_string()))
    );
}

#[test]
fn a_transport_failure_is_handed_on_as_it_is() {
    let mut platon = PlatON::new(Loopback::new());
    let mut call = platon.accounts::<String>();
    let failure = RpcError::Transport("connection closed".to_string());
    assert!(platon.transport_mut().respond(0, Err(failure)));
    assert_eq!(
        call.poll(platon.transport_mut()),
        Poll::Ready(Err(RpcError::Transport("connection closed".to_string())))
    );
}

#[test]
fn a_failure_of_the_server_is_handed_on_as_it_is() {
    let mut platon = PlatON::new(Loopback::new());
    let mut call = platon.coinbase::<bool>();
    assert!(platon.transport_mut().respond(0, Err(RpcError::Rpc("method not found".to_string()))));
    assert_eq!(
        call.poll(platon.transport_mut()),
        Poll::Ready(Err(RpcError::Rpc("method not found".to_string())))
    );
}

#[test]
fn a_payload_of_the_wrong_shape_is_a_decode_failure() {
    let mut platon = PlatON::new(Loopback::new());
    let mut as_string = platon.gas_price::<String>(&ledger());
    let mut as_bool = platon.syncing::<bool>(&ledger());
    assert!(platon.transport_mut().respond(0, Ok(Value::Bool(true))));
    assert!(platon.transport_mut().respond(1, Ok(text("true"))));
    match as_string.poll(platon.transport_mut()) {
        Poll::Ready(Err(RpcError::Decoder(message))) => assert!(!message.is_empty()),
        other => panic!("expected a decode failure, got {:?}", other),
    }
    match as_bool.poll(platon.transport_mut()) {
        Poll::Ready(Err(RpcError::Decoder(message))) => assert!(!message.is_empty()),
        other => panic!("expected a decode failure, got {:?}", other),
    }
}

#[test]
fn plain_payloads_are_read_as_their_type() {
    let mut platon = PlatON::new(Loopback::new());
    let mut as_bool = platon.syncing::<bool>(&ledger());
    let mut as_value = platon.accounts::<Value>();
    assert!(platon.transport_mut().respond(0, Ok(Value::Bool(false))));
    assert!(platon.transport_mut().respond(1, Ok(Value::Null)));
    assert_eq!(as_bool.poll(platon.transport_mut()), Poll::Ready(Ok(false)));
    assert_eq!(as_value.poll(platon.transport_mut()), Poll::Ready(Ok(Value::Null)));
}

#[test]
fn a_call_over_a_bare_transport() {
    let mut transport = Loopback::new();
    let ticket = transport.execute("platon_accounts", vec![]);
    assert_eq!(ticket.number(), 0);
    let mut call: CallFuture<Value, _> = CallFuture::new(ticket);
    assert_eq!(call.poll(&mut transport), Poll::Pending);
    assert!(transport.respond(0, Ok(Value::Array(vec![]))));
    assert_eq!(call.poll(&mut transport), Poll::Ready(Ok(Value::Array(vec![]))));
}
