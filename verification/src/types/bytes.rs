//! Hashes, addresses and byte strings, and how they go on the wire.
//!
//! On the wire each of them is a JSON string: `0x` and then digits to the
//! base sixteen. A sequence of bytes has two digits for each byte. A
//! quantity has no leading zeros, and `0x0` for zero. What this crate writes
//! has its digits in lower case; what it reads may have them in either.
use crate::error::RpcError;
use crate::json::{json_string, string_in, string_value, Decode};
use vstd::array::ArrayAdditionalExecFns;
use vstd::prelude::*;
use vstd::string::{StrSliceExecFns, StringExecFns};

verus! {

/// The digit for `n`, which is below sixteen.
pub open spec fn hex_digit(n: int) -> char {
    if n == 0 {
        '0'
    } else if n == 1 {
        '1'
    } else if n == 2 {
        '2'
    } else if n == 3 {
        '3'
    } else if n == 4 {
        '4'
    } else if n == 5 {
        '5'
    } else if n == 6 {
        '6'
    } else if n == 7 {
        '7'
    } else if n == 8 {
        '8'
    } else if n == 9 {
        '9'
    } else if n == 10 {
        'a'
    } else if n == 11 {
        'b'
    } else if n == 12 {
        'c'
    } else if n == 13 {
        'd'
    } else if n == 14 {
        'e'
    } else {
        'f'
    }
}

/// The digits of `bytes`: for each byte the digit of its high half, then
/// that of its low half.
pub open spec fn hex_of_bytes(bytes: Seq<u8>) -> Seq<char>
    decreases bytes.len(),
{
    if bytes.len() == 0 {
        Seq::empty()
    } else {
        hex_of_bytes(bytes.drop_last()).push(hex_digit(bytes.last() as int / 16)).push(
            hex_digit(bytes.last() as int % 16),
        )
    }
}

/// The digits of the number `n`, the highest first, with no leading zero.
pub open spec fn hex_of_quantity(n: nat) -> Seq<char>
    decreases n,
{
    if n < 16 {
        seq![hex_digit(n as int)]
    } else {
        hex_of_quantity(n / 16).push(hex_digit(n as int % 16))
    }
}

/// The two characters that every value starts with.
pub open spec fn hex_prefix() -> Seq<char> {
    seq!['0', 'x']
}

/// The text of `bytes` on the wire.
pub open spec fn bytes_text(bytes: Seq<u8>) -> Seq<char> {
    hex_prefix() + hex_of_bytes(bytes)
}

/// The text of the number `n` on the wire.
pub open spec fn quantity_text(n: nat) -> Seq<char> {
    hex_prefix() + hex_of_quantity(n)
}

fn digit_str(n: u8) -> (s: &'static str)
    requires
        n < 16,
    ensures
        s@ == seq![hex_digit(n as int)],
{
    proof {
        reveal_strlit("0");
        reveal_strlit("1");
        reveal_strlit("2");
        reveal_strlit("3");
        reveal_strlit("4");
        reveal_strlit("5");
        reveal_strlit("6");
        reveal_strlit("7");
        reveal_strlit("8");
        reveal_strlit("9");
        reveal_strlit("a");
        reveal_strlit("b");
        reveal_strlit("c");
        reveal_strlit("d");
        reveal_strlit("e");
        reveal_strlit("f");
    }
    let s = if n == 0 {
        "0"
    } else if n == 1 {
        "1"
    } else if n == 2 {
        "2"
    } else if n == 3 {
        "3"
    } else if n == 4 {
        "4"
    } else if n == 5 {
        "5"
    } else if n == 6 {
        "6"
    } else if n == 7 {
        "7"
    } else if n == 8 {
        "8"
    } else if n == 9 {
        "9"
    } else if n == 10 {
        "a"
    } else if n == 11 {
        "b"
    } else if n == 12 {
        "c"
    } else if n == 13 {
        "d"
    } else if n == 14 {
        "e"
    } else {
        "f"
    };
    assert(s@ =~= seq![hex_digit(n as int)]);
    s
}

fn prefix() -> (text: String)
    ensures
        text@ == hex_prefix(),
{
    proof {
        reveal_strlit("0x");
    }
    let text = String::from_str("0x");
    assert(text@ =~= hex_prefix());
    text
}

/// Writes `bytes` as text.
pub fn encode_bytes(bytes: &[u8]) -> (text: String)
    ensures
        text@ == bytes_text(bytes@),
{
    let mut text = prefix();
    let mut i: usize = 0;
    while i < bytes.len()
        invariant
            i <= bytes.len(),
            text@ == bytes_text(bytes@.take(i as int)),
        decreases bytes.len() - i,
    {
        let byte: u8 = bytes[i];
        proof {
            let done = bytes@.take(i as int);
            let next = bytes@.take(i as int + 1);
            assert(next.drop_last() =~= done);
            assert(next.last() == byte);
        }
        text.append(digit_str(byte / 16));
        text.append(digit_str(byte % 16));
        i = i + 1;
        assert(text@ =~= bytes_text(bytes@.take(i as int)));
    }
    assert(bytes@.take(i as int) =~= bytes@);
    text
}

fn append_quantity(n: u64, text: &mut String)
    ensures
        final(text)@ == old(text)@ + hex_of_quantity(n as nat),
    decreases n,
{
    if n >= 16 {
        append_quantity(n / 16, text);
    }
    let low: u8 = (n % 16) as u8;
    text.append(digit_str(low));
    assert(text@ =~= old(text)@ + hex_of_quantity(n as nat));
}

/// Writes the number `n` as text.
pub fn encode_quantity(n: u64) -> (text: String)
    ensures
        text@ == quantity_text(n as nat),
{
    let mut text = prefix();
    append_quantity(n, &mut text);
    text
}

/// The number that the digit `c` stands for, in either case, and `None`
/// where `c` is no digit to the base sixteen.
pub open spec fn hex_value(c: char) -> Option<int> {
    if c == '0' {
        Some(0)
    } else if c == '1' {
        Some(1)
    } else if c == '2' {
        Some(2)
    } else if c == '3' {
        Some(3)
    } else if c == '4' {
        Some(4)
    } else if c == '5' {
        Some(5)
    } else if c == '6' {
        Some(6)
    } else if c == '7' {
        Some(7)
    } else if c == '8' {
        Some(8)
    } else if c == '9' {
        Some(9)
    } else if c == 'a' || c == 'A' {
        Some(10)
    } else if c == 'b' || c == 'B' {
        Some(11)
    } else if c == 'c' || c == 'C' {
        Some(12)
    } else if c == 'd' || c == 'D' {
        Some(13)
    } else if c == 'e' || c == 'E' {
        Some(14)
    } else if c == 'f' || c == 'F' {
        Some(15)
    } else {
        None
    }
}

/// Whether `text` is `bytes` written out: `0x`, and then for each byte its
/// two digits, the high half first.
pub open spec fn reads_as(text: Seq<char>, bytes: Seq<u8>) -> bool {
    &&& text.len() == 2 + 2 * bytes.len()
    &&& text[0] == '0'
    &&& text[1] == 'x'
    &&& forall|i: int|
        0 <= i < bytes.len() ==> {
            &&& hex_value(text[2 + 2 * i]) == Some(#[trigger] bytes[i] as int / 16)
            &&& hex_value(text[3 + 2 * i]) == Some(bytes[i] as int % 16)
        }
}

fn digit_value(c: char) -> (value: Option<u8>)
    ensures
        match value {
            Some(n) => hex_value(c) == Some(n as int),
            None => hex_value(c) is None,
        },
{
    if c == '0' {
        Some(0)
    } else if c == '1' {
        Some(1)
    } else if c == '2' {
        Some(2)
    } else if c == '3' {
        Some(3)
    } else if c == '4' {
        Some(4)
    } else if c == '5' {
        Some(5)
    } else if c == '6' {
        Some(6)
    } else if c == '7' {
        Some(7)
    } else if c == '8' {
        Some(8)
    } else if c == '9' {
        Some(9)
    } else if c == 'a' || c == 'A' {
        Some(10)
    } else if c == 'b' || c == 'B' {
        Some(11)
    } else if c == 'c' || c == 'C' {
        Some(12)
    } else if c == 'd' || c == 'D' {
        Some(13)
    } else if c == 'e' || c == 'E' {
        Some(14)
    } else if c == 'f' || c == 'F' {
        Some(15)
    } else {
        None
    }
}

/// Reads `text` as a sequence of bytes. The result is the bytes that
/// `text` is the writing of, and `None` where it is the writing of none:
/// where it does not start with `0x`, has an odd number of digits, or holds
/// a character that is no digit.
pub fn parse_bytes(text: &str) -> (r: Option<Vec<u8>>)
    ensures
        match r {
            Some(bytes) => reads_as(text@, bytes@),
            None => forall|bytes: Seq<u8>| !reads_as(text@, bytes),
        },
{
    let len = text.unicode_len();
    if len < 2 || len % 2 != 0 {
        return None;
    }
    if text.get_char(0) != '0' || text.get_char(1) != 'x' {
        return None;
    }
    let count = (len - 2) / 2;
    let mut bytes: Vec<u8> = Vec::new();
    let mut i: usize = 0;
    while i < count
        invariant
            len == text@.len(),
            len == 2 + 2 * count,
            i <= count,
            bytes@.len() == i,
            forall|j: int|
                0 <= j < i ==> {
                    &&& hex_value(text@[2 + 2 * j]) == Some(#[trigger] bytes@[j] as int / 16)
                    &&& hex_value(text@[3 + 2 * j]) == Some(bytes@[j] as int % 16)
                },
        decreases count - i,
    {
        let high = digit_value(text.get_char(2 + 2 * i));
        let low = digit_value(text.get_char(3 + 2 * i));
        match (high, low) {
            (Some(high), Some(low)) => {
                bytes.push(high * 16 + low);
            },
            _ => {
                assert forall|other: Seq<u8>| !reads_as(text@, other) by {
                    if reads_as(text@, other) {
                        assert(hex_value(text@[2 + 2 * i]) == Some(other[i as int] as int / 16));
                    }
                }
                return None;
            },
        }
        i = i + 1;
    }
    Some(bytes)
}

/// What is written can be read back, and a text is the writing of one
/// sequence of bytes at most.
pub proof fn law_bytes_round_trip(bytes: Seq<u8>, text: Seq<char>, other: Seq<u8>)
    ensures
        reads_as(bytes_text(bytes), bytes),
        reads_as(text, bytes) && reads_as(text, other) ==> other == bytes,
{
    lemma_hex_of_bytes(bytes);
    let written = bytes_text(bytes);
    assert forall|i: int| 0 <= i < bytes.len() implies {
        &&& hex_value(written[2 + 2 * i]) == Some(#[trigger] bytes[i] as int / 16)
        &&& hex_value(written[3 + 2 * i]) == Some(bytes[i] as int % 16)
    } by {
        assert(written[2 + 2 * i] == hex_of_bytes(bytes)[2 * i]);
        assert(written[3 + 2 * i] == hex_of_bytes(bytes)[2 * i + 1]);
    }
    if reads_as(text, bytes) && reads_as(text, other) {
        assert forall|i: int| 0 <= i < bytes.len() implies other[i] == bytes[i] by {
            assert(hex_value(text[2 + 2 * i]) == Some(bytes[i] as int / 16));
            assert(hex_value(text[2 + 2 * i]) == Some(other[i] as int / 16));
            assert(hex_value(text[3 + 2 * i]) == Some(bytes[i] as int % 16));
            assert(hex_value(text[3 + 2 * i]) == Some(other[i] as int % 16));
        }
        assert(other =~= bytes);
    }
}

/// The digits of `bytes`, place by place.
proof fn lemma_hex_of_bytes(bytes: Seq<u8>)
    ensures
        hex_of_bytes(bytes).len() == 2 * bytes.len(),
        forall|i: int|
            0 <= i < bytes.len() ==> {
                &&& hex_of_bytes(bytes)[2 * i] == hex_digit(#[trigger] bytes[i] as int / 16)
                &&& hex_of_bytes(bytes)[2 * i + 1] == hex_digit(bytes[i] as int % 16)
            },
    decreases bytes.len(),
{
    if bytes.len() > 0 {
        lemma_hex_of_bytes(bytes.drop_last());
        assert forall|i: int| 0 <= i < bytes.len() implies {
            &&& hex_of_bytes(bytes)[2 * i] == hex_digit(#[trigger] bytes[i] as int / 16)
            &&& hex_of_bytes(bytes)[2 * i + 1] == hex_digit(bytes[i] as int % 16)
        } by {
            if i < bytes.len() - 1 {
                assert(bytes.drop_last()[i] == bytes[i]);
            }
        }
    }
}

/// A hash of 32 bytes.
#[derive(Debug, Clone, Copy, PartialEq, Eq)]
pub struct H256(pub [u8; 32]);

/// A hash of 20 bytes.
#[derive(Debug, Clone, Copy, PartialEq, Eq)]
pub struct H160(pub [u8; 20]);

/// The address of an account.
pub type Address = H160;

/// A string of bytes of any length.
#[derive(Debug, PartialEq, Eq)]
pub struct Bytes(pub Vec<u8>);

/// Whether `e` is the failure to read the JSON string `raw` as bytes: a
/// decode failure that holds the text of the string.
pub open spec fn names_text(raw: serde_json::Value, e: RpcError) -> bool {
    string_in(raw) matches Some(text) ==> e matches RpcError::Decoder(refused) && refused@ == text
}

impl H256 {
    /// Reads `text` as a hash: the result is the hash that `text` is the
    /// writing of, and `None` where it is the writing of no 32 bytes.
    pub fn from_text(text: &str) -> (r: Option<H256>)
        ensures
            match r {
                Some(hash) => reads_as(text@, hash.0@),
                None => forall|bytes: Seq<u8>| bytes.len() == 32 ==> !reads_as(text@, bytes),
            },
    {
        match parse_bytes(text) {
            Some(bytes) => {
                if bytes.len() != 32 {
                    return None;
                }
                let mut hash = [0u8;32];
                let mut i: usize = 0;
                while i < 32
                    invariant
                        i <= 32,
                        bytes@.len() == 32,
                        forall|j: int| 0 <= j < i ==> hash@[j] == bytes@[j],
                    decreases 32 - i,
                {
                    hash[i] = bytes[i];
                    i = i + 1;
                }
                assert(hash@ =~= bytes@);
                Some(H256(hash))
            },
            None => None,
        }
    }

    /// The hash on the wire.
    pub open spec fn wire(self) -> serde_json::Value {
        json_string(bytes_text(self.0@))
    }

    /// Serializes the hash.
    pub fn to_value(&self) -> (v: serde_json::Value)
        ensures
            v == self.wire(),
    {
        let text = encode_bytes(self.0.as_slice());
        string_value(text.as_str())
    }
}

impl H160 {
    /// Reads `text` as a hash: the result is the hash that `text` is the
    /// writing of, and `None` where it is the writing of no 20 bytes.
    pub fn from_text(text: &str) -> (r: Option<H160>)
        ensures
            match r {
                Some(hash) => reads_as(text@, hash.0@),
                None => forall|bytes: Seq<u8>| bytes.len() == 20 ==> !reads_as(text@, bytes),
            },
    {
        match parse_bytes(text) {
            Some(bytes) => {
                if bytes.len() != 20 {
                    return None;
                }
                let mut hash = [0u8;20];
                let mut i: usize = 0;
                while i < 20
                    invariant
                        i <= 20,
                        bytes@.len() == 20,
                        forall|j: int| 0 <= j < i ==> hash@[j] == bytes@[j],
                    decreases 20 - i,
                {
                    hash[i] = bytes[i];
                    i = i + 1;
                }
                assert(hash@ =~= bytes@);
                Some(H160(hash))
            },
            None => None,
        }
    }

    /// The hash on the wire.
    pub open spec fn wire(self) -> serde_json::Value {
        json_string(bytes_text(self.0@))
    }

    /// Serializes the hash.
    pub fn to_value(&self) -> (v: serde_json::Value)
        ensures
            v == self.wire(),
    {
        let text = encode_bytes(self.0.as_slice());
        string_value(text.as_str())
    }
}

impl Bytes {
    /// The bytes on the wire.
    pub open spec fn wire(self) -> serde_json::Value {
        json_string(bytes_text(self.0@))
    }

    /// Serializes the bytes.
    pub fn to_value(&self) -> (v: serde_json::Value)
        ensures
            v == self.wire(),
    {
        let text = encode_bytes(self.0.as_slice());
        string_value(text.as_str())
    }
}

/// A hash is read from a JSON string that is the writing of 32 bytes.
impl Decode for H256 {
    open spec fn accepts(raw: serde_json::Value) -> bool {
        string_in(raw) matches Some(text) && exists|bytes: Seq<u8>|
            bytes.len() == 32 && reads_as(text, bytes)
    }

    open spec fn decodes(raw: serde_json::Value, item: H256) -> bool {
        string_in(raw) matches Some(text) && reads_as(text, item.0@)
    }

    /// A string that is refused comes back inside the failure.
    fn decode(raw: serde_json::Value) -> (r: Result<H256, RpcError>)
        ensures
            r matches Err(e) ==> names_text(raw, e),
    {
        match String::decode(raw) {
            Ok(text) => match H256::from_text(text.as_str()) {
                Some(hash) => {
                    assert(hash.0@.len() == 32);
                    Ok(hash)
                },
                None => Err(RpcError::Decoder(text)),
            },
            Err(e) => Err(e),
        }
    }
}

/// A hash is read from a JSON string that is the writing of 20 bytes.
impl Decode for H160 {
    open spec fn accepts(raw: serde_json::Value) -> bool {
        string_in(raw) matches Some(text) && exists|bytes: Seq<u8>|
            bytes.len() == 20 && reads_as(text, bytes)
    }

    open spec fn decodes(raw: serde_json::Value, item: H160) -> bool {
        string_in(raw) matches Some(text) && reads_as(text, item.0@)
    }

    /// A string that is refused comes back inside the failure.
    fn decode(raw: serde_json::Value) -> (r: Result<H160, RpcError>)
        ensures
            r matches Err(e) ==> names_text(raw, e),
    {
        match String::decode(raw) {
            Ok(text) => match H160::from_text(text.as_str()) {
                Some(hash) => {
                    assert(hash.0@.len() == 20);
                    Ok(hash)
                },
                None => Err(RpcError::Decoder(text)),
            },
            Err(e) => Err(e),
        }
    }
}

/// Bytes are read from a JSON string that is the writing of some bytes.
impl Decode for Bytes {
    open spec fn accepts(raw: serde_json::Value) -> bool {
        string_in(raw) matches Some(text) && exists|bytes: Seq<u8>| reads_as(text, bytes)
    }

    open spec fn decodes(raw: serde_json::Value, item: Bytes) -> bool {
        string_in(raw) matches Some(text) && reads_as(text, item.0@)
    }

    /// A string that is refused comes back inside the failure.
    fn decode(raw: serde_json::Value) -> (r: Result<Bytes, RpcError>)
        ensures
            r matches Err(e) ==> names_text(raw, e),
    {
        match String::decode(raw) {
            Ok(text) => match parse_bytes(text.as_str()) {
                Some(bytes) => {
                    assert(Self::accepts(raw)) by {
                        assert(reads_as(string_in(raw)->0, bytes@));
                    }
                    Ok(Bytes(bytes))
                },
                None => Err(RpcError::Decoder(text)),
            },
            Err(e) => Err(e),
        }
    }
}

/// The number `n` on the wire.
pub open spec fn quantity_wire(n: u64) -> serde_json::Value {
    json_string(quantity_text(n as nat))
}

/// Serializes the number `n`.
pub fn quantity_value(n: u64) -> (v: serde_json::Value)
    ensures
        v == quantity_wire(n),
{
    let text = encode_quantity(n);
    string_value(text.as_str())
}

} // verus!
