use platon_rpc::types::block::{BlockId, BlockNumber};
use platon_rpc::error::RpcError;
use platon_rpc::json::Decode;
use platon_rpc::types::bytes::{
    encode_bytes, encode_quantity, parse_bytes, quantity_value, Bytes, H160, H256,
};
use serde_json::Value;

#[test]
fn quantity_has_no_leading_zeros() {
    assert_eq!(encode_quantity(0), "0x0");
    assert_eq!(encode_quantity(1), "0x1");
    assert_eq!(encode_quantity(15), "0xf");
    assert_eq!(encode_quantity(16), "0x10");
    assert_eq!(encode_quantity(436), "0x1b4");
    assert_eq!(encode_quantity(u64::MAX), "0xffffffffffffffff");
}

#[test]
fn bytes_have_two_digits_each() {
    assert_eq!(encode_bytes(&[]), "0x");
    assert_eq!(encode_bytes(&[0]), "0x00");
    assert_eq!(encode_bytes(&[0x01, 0xab, 0xff]), "0x01abff");
}

#[test]
fn hashes_are_json_strings() {
    assert_eq!(H160([0x11; 20]).to_value(), Value::String(format!("0x{}", "11".repeat(20))));
    assert_eq!(H256([0xfe; 32]).to_value(), Value::String(format!("0x{}", "fe".repeat(32))));
    assert_eq!(Bytes(vec![1, 2, 3]).to_value(), Value::String("0x010203".to_string()));
    assert_eq!(quantity_value(255), Value::String("0xff".to_string()));
}

#[test]
fn block_numbers_are_names_or_quantities() {
    assert_eq!(BlockNumber::Latest.to_value(), Value::String("latest".to_string()));
    assert_eq!(BlockNumber::Earliest.to_value(), Value::String("earliest".to_string()));
    assert_eq!(BlockNumber::Pending.to_value(), Value::String("pending".to_string()));
    assert_eq!(BlockNumber::Number(436).to_value(), Value::String("0x1b4".to_string()));
}

#[test]
fn block_id_by_hash_is_an_object() {
    let id = BlockId::Hash(H256([0; 32]));
    let v = id.to_value();
    let object = v.as_object().expect("an object");
    assert_eq!(object.len(), 1);
    assert_eq!(object.get("blockHash"), Some(&Value::String(format!("0x{}", "00".repeat(32)))));
    assert_eq!(
        BlockId::Number(BlockNumber::Latest).to_value(),
        Value::String("latest".to_string())
    );
    assert_eq!(BlockId::from(BlockNumber::Pending), BlockId::Number(BlockNumber::Pending));
}

#[test]
fn text_is_read_back_as_bytes() {
    assert_eq!(parse_bytes("0x"), Some(vec![]));
    assert_eq!(parse_bytes("0x00"), Some(vec![0]));
    assert_eq!(parse_bytes("0x01abff"), Some(vec![0x01, 0xab, 0xff]));
    assert_eq!(parse_bytes("0x01ABfF"), Some(vec![0x01, 0xab, 0xff]));
    assert_eq!(parse_bytes(&encode_bytes(&[9, 8, 7, 250])), Some(vec![9, 8, 7, 250]));
}

#[test]
fn text_that_is_no_writing_of_bytes_is_refused() {
    assert_eq!(parse_bytes(""), None);
    assert_eq!(parse_bytes("0"), None);
    assert_eq!(parse_bytes("01ab"), None);
    assert_eq!(parse_bytes("0X01"), None);
    assert_eq!(parse_bytes("0x1"), None);
    assert_eq!(parse_bytes("0x0g"), None);
    assert_eq!(parse_bytes("0xg0"), None);
    assert_eq!(parse_bytes("0x00\u{e9}\u{e9}"), None);
}

#[test]
fn hashes_are_read_at_their_own_length_only() {
    let text = format!("0x{}", "c3".repeat(32));
    assert_eq!(H256::from_text(&text), Some(H256([0xc3; 32])));
    assert_eq!(H160::from_text(&text), None);
    let short = format!("0x{}", "c3".repeat(20));
    assert_eq!(H160::from_text(&short), Some(H160([0xc3; 20])));
    assert_eq!(H256::from_text(&short), None);
    assert_eq!(H256::from_text("latest"), None);
}

#[test]
fn hashes_and_bytes_are_decoded_from_json_strings() {
    let text = format!("0x{}", "0f".repeat(32));
    assert_eq!(H256::decode(Value::String(text.clone())), Ok(H256([0x0f; 32])));
    assert!(matches!(H160::decode(Value::String(text)), Err(RpcError::Decoder(_))));
    assert!(matches!(H256::decode(Value::Bool(true)), Err(RpcError::Decoder(_))));
    assert_eq!(Bytes::decode(Value::String("0xdead".to_string())), Ok(Bytes(vec![0xde, 0xad])));
    assert!(matches!(Bytes::decode(Value::String("dead".to_string())), Err(RpcError::Decoder(_))));
    assert_eq!(H160::decode(H160([7; 20]).to_value()), Ok(H160([7; 20])));
}

#[test]
fn a_refused_text_comes_back_inside_the_failure() {
    let refused = Err(RpcError::Decoder("0xzz".to_string()));
    assert_eq!(Bytes::decode(Value::String("0xzz".to_string())), refused);
    assert_eq!(
        H256::decode(Value::String("latest".to_string())),
        Err(RpcError::Decoder("latest".to_string()))
    );
    assert_eq!(
        H160::decode(Value::String(String::new())),
        Err(RpcError::Decoder(String::new()))
    );
}
