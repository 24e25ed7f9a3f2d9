//! Raw JSON values, and reading and writing the plain ones.
//!
//! A `serde_json::Value` is carried through this crate unopened. The few
//! values that the crate itself has to build or read go through the
//! functions below: strings, booleans, and objects with one member.
//!
//! What `serde_json` builds and reads is not proved here. Each of its
//! functions that this crate calls has a name for its result, and the
//! contracts of the crate are exact up to these names.
use crate::error::RpcError;
use vstd::prelude::*;

verus! {

/// `serde_json::Value`, any JSON value. Nothing inside it is visible here.
#[verifier::external_type_specification]
#[verifier::external_body]
pub struct ExValue(serde_json::Value);

/// `serde_json::Error`, the failure to read a value as a type. Nothing
/// inside it is visible here.
#[verifier::external_type_specification]
#[verifier::external_body]
pub struct ExJsonError(serde_json::Error);

/// The JSON string that holds exactly the characters `s`.
pub uninterp spec fn json_string(s: Seq<char>) -> serde_json::Value;

/// The JSON boolean `b`.
pub uninterp spec fn json_bool(b: bool) -> serde_json::Value;

/// The JSON object with the one member `key`, whose value is `member`.
pub uninterp spec fn json_object(key: Seq<char>, member: serde_json::Value) -> serde_json::Value;

/// The characters of `v` where `v` is a JSON string, and `None` for every
/// other value.
pub uninterp spec fn string_in(v: serde_json::Value) -> Option<Seq<char>>;

/// The boolean that `v` is where it is a JSON boolean, and `None` for every
/// other value.
pub uninterp spec fn bool_in(v: serde_json::Value) -> Option<bool>;

/// Calls `serde_json::Value::from` on a string slice. It returns
/// `Value::String` with a copy of the slice, which is the value that
/// `json_string` names.
#[verifier::external_body]
pub(crate) fn string_value(s: &str) -> (v: serde_json::Value)
    ensures
        v == json_string(s@),
{
    serde_json::Value::from(s)
}

/// Calls `serde_json::Value::from` on a boolean. It returns `Value::Bool`
/// of it, which is the value that `json_bool` names.
#[verifier::external_body]
pub(crate) fn bool_value(b: bool) -> (v: serde_json::Value)
    ensures
        v == json_bool(b),
{
    serde_json::Value::from(b)
}

/// Calls `serde_json::Value::from_iter` on one pair of a key and a value. It
/// returns `Value::Object` of the map that holds that pair and no other,
/// which is the value that `json_object` names.
#[verifier::external_body]
pub(crate) fn object_value(key: &str, member: serde_json::Value) -> (v: serde_json::Value)
    ensures
        v == json_object(key@, member),
{
    serde_json::Value::from_iter([(key, member)])
}

/// Calls `serde_json::from_value` for a `String`. It succeeds on
/// `Value::String`, with the string inside, and fails on every other
/// value; `string_in` names that outcome.
#[verifier::external_body]
pub(crate) fn from_value_string(v: serde_json::Value) -> (r: Result<String, serde_json::Error>)
    ensures
        match r {
            Ok(s) => string_in(v) == Some(s@),
            Err(_) => string_in(v) is None,
        },
{
    serde_json::from_value::<String>(v)
}

/// Calls `serde_json::from_value` for a `bool`. It succeeds on
/// `Value::Bool`, with the boolean inside, and fails on every other value;
/// `bool_in` names that outcome.
#[verifier::external_body]
pub(crate) fn from_value_bool(v: serde_json::Value) -> (r: Result<bool, serde_json::Error>)
    ensures
        match r {
            Ok(b) => bool_in(v) == Some(b),
            Err(_) => bool_in(v) is None,
        },
{
    serde_json::from_value::<bool>(v)
}

/// Renders a `serde_json::Error` with its `Debug` impl. Nothing is claimed
/// of the text.
#[verifier::external_body]
pub(crate) fn error_text(e: &serde_json::Error) -> (text: String) {
    format!("{:?}", e)
}

/// A type that a raw value can be read as.
///
/// `accepts` says which raw values have the shape of the type, and
/// `decodes` which item such a value stands for. `decode` reads the value:
/// it gives the item exactly on the accepted values, and a
/// [`RpcError::Decoder`] on all the others.
///
/// An implementor states `accepts` and `decodes`. Where it does not,
/// nothing is known of them.
pub trait Decode: Sized {
    /// Whether `raw` has the shape of this type.
    open spec fn accepts(raw: serde_json::Value) -> bool {
        arbitrary()
    }

    /// Whether `item` is what `raw` holds.
    open spec fn decodes(raw: serde_json::Value, item: Self) -> bool {
        arbitrary()
    }

    /// Reads `raw` as this type.
    fn decode(raw: serde_json::Value) -> (r: Result<Self, RpcError>)
        ensures
            match r {
                Ok(item) => Self::accepts(raw) && Self::decodes(raw, item),
                Err(e) => !Self::accepts(raw) && e is Decoder,
            },
    ;
}

/// Whether `r` is the outcome of reading `raw` as an `R`: the item that
/// `raw` holds where `R` accepts it, a decode failure where it does not.
pub open spec fn decoded<R: Decode>(raw: serde_json::Value, r: Result<R, RpcError>) -> bool {
    match r {
        Ok(item) => R::accepts(raw) && R::decodes(raw, item),
        Err(e) => !R::accepts(raw) && e is Decoder,
    }
}

/// A raw value read as itself: every value is accepted and handed on.
impl Decode for serde_json::Value {
    open spec fn accepts(raw: serde_json::Value) -> bool {
        true
    }

    open spec fn decodes(raw: serde_json::Value, item: serde_json::Value) -> bool {
        item == raw
    }

    fn decode(raw: serde_json::Value) -> (r: Result<serde_json::Value, RpcError>) {
        Ok(raw)
    }
}

/// A string is read from a JSON string, and from nothing else.
impl Decode for String {
    open spec fn accepts(raw: serde_json::Value) -> bool {
        string_in(raw) is Some
    }

    open spec fn decodes(raw: serde_json::Value, item: String) -> bool {
        string_in(raw) == Some(item@)
    }

    fn decode(raw: serde_json::Value) -> (r: Result<String, RpcError>) {
        match from_value_string(raw) {
            Ok(s) => Ok(s),
            Err(e) => Err(RpcError::Decoder(error_text(&e))),
        }
    }
}

/// A boolean is read from a JSON boolean, and from nothing else.
impl Decode for bool {
    open spec fn accepts(raw: serde_json::Value) -> bool {
        bool_in(raw) is Some
    }

    open spec fn decodes(raw: serde_json::Value, item: bool) -> bool {
        bool_in(raw) == Some(item)
    }

    fn decode(raw: serde_json::Value) -> (r: Result<bool, RpcError>) {
        match from_value_bool(raw) {
            Ok(b) => Ok(b),
            Err(e) => Err(RpcError::Decoder(error_text(&e))),
        }
    }
}

} // verus!
