//! JSON values: what they hold, how they are read from bytes and written to
//! them, and the protocol's parameters in them.
use vstd::prelude::*;

use serde_json::Value;

use crate::message::{ProgressToken, ProgressTokenView};

verus! {

/// `serde_json::Value`, whose contents [`json_model`] names.
#[verifier::external_type_specification]
#[verifier::external_body]
pub struct ExValue(Value);

/// What a JSON value holds.
#[allow(inconsistent_fields)]
pub enum JsonModel {
    Null,
    Bool(bool),
    /// A number held as an integer.
    Integer(int),
    /// A number held as a fraction, by its decimal text.
    Fraction(Seq<char>),
    Text(Seq<char>),
    Array(Seq<JsonModel>),
    Object(Map<Seq<char>, JsonModel>),
}

/// What a `serde_json::Value` holds.
pub uninterp spec fn json_model(value: Value) -> JsonModel;

/// `serde_json::from_slice::<Value>`: the value that bytes encode, or the text
/// of the error.
pub uninterp spec fn parsed_json(bytes: Seq<u8>) -> Result<JsonModel, Seq<char>>;

/// `serde_json::to_vec` of a value: its encoding, or the text of the error.
pub uninterp spec fn encoded_json(value: JsonModel) -> Result<Seq<u8>, Seq<char>>;

/// The bytes of `null`.
pub open spec fn null_body() -> Seq<u8> {
    seq![110u8, 117u8, 108u8, 108u8]
}

/// The entry of an object under a key.
pub open spec fn json_entry(value: JsonModel, key: Seq<char>) -> Option<JsonModel> {
    match value {
        JsonModel::Object(entries) => if entries.dom().contains(key) {
            Some(entries[key])
        } else {
            None
        },
        _ => None,
    }
}

/// `serde_json::from_slice::<Value>`. The contract names the value it reads, and
/// the text of the error where the bytes are no JSON.
#[verifier::external_body]
pub(crate) fn parse_json(bytes: &[u8]) -> (result: Result<Value, String>)
    ensures
        match result {
            Ok(value) => parsed_json(bytes@) == Ok::<JsonModel, Seq<char>>(json_model(value)),
            Err(error) => parsed_json(bytes@) == Err::<JsonModel, Seq<char>>(error@),
        },
{
    serde_json::from_slice(bytes).map_err(|error| error.to_string())
}

/// `serde_json::to_vec` of a value. The contract names the encoding, and says
/// that of `null`.
#[verifier::external_body]
pub(crate) fn encode_json(value: &Value) -> (result: Result<Vec<u8>, String>)
    ensures
        match result {
            Ok(body) => encoded_json(json_model(*value)) == Ok::<Seq<u8>, Seq<char>>(body@),
            Err(error) => encoded_json(json_model(*value)) == Err::<Seq<u8>, Seq<char>>(error@),
        },
        json_model(*value) is Null ==> result is Ok && result->Ok_0@ == null_body(),
{
    serde_json::to_vec(value).map_err(|error| error.to_string())
}

/// `Value::Null`.
#[verifier::external_body]
pub(crate) fn json_null() -> (value: Value)
    ensures
        json_model(value) is Null,
{
    Value::Null
}

/// `Value::clone`: the copy holds the same.
#[verifier::external_body]
pub(crate) fn json_clone(value: &Value) -> (copy: Value)
    ensures
        json_model(copy) == json_model(*value),
{
    value.clone()
}

/// `Value::get` with a text: the entry of an object, and nothing of any other
/// value.
#[verifier::external_body]
pub(crate) fn json_get<'a>(value: &'a Value, key: &str) -> (entry: Option<&'a Value>)
    ensures
        match entry {
            Some(found) => json_entry(json_model(*value), key@) == Some(json_model(*found)),
            None => json_entry(json_model(*value), key@) is None,
        },
{
    value.get(key)
}

/// `Value::is_null`.
#[verifier::external_body]
pub(crate) fn json_is_null(value: &Value) -> (null: bool)
    ensures
        null == (json_model(*value) is Null),
{
    value.is_null()
}

/// `Value::as_str`: the text of a text, and nothing of any other value.
#[verifier::external_body]
pub(crate) fn json_text(value: &Value) -> (text: Option<&str>)
    ensures
        match text {
            Some(found) => json_model(*value) == JsonModel::Text(found@),
            None => !(json_model(*value) is Text),
        },
{
    value.as_str()
}

/// `Value::as_object` and the `len` of the map it gives: how many entries an
/// object has, and nothing of any other value.
#[verifier::external_body]
pub(crate) fn json_entries(value: &Value) -> (count: Option<usize>)
    ensures
        match count {
            Some(n) => json_model(*value) matches JsonModel::Object(entries) && entries.dom().finite()
                && entries.dom().len() == n,
            None => !(json_model(*value) is Object),
        },
{
    value.as_object().map(|entries| entries.len())
}

/// The token a JSON value is.
pub open spec fn token_of(value: JsonModel) -> Option<ProgressTokenView> {
    match value {
        JsonModel::Integer(number) => if i32::MIN <= number <= i32::MAX {
            Some(ProgressTokenView::Int(number as i32))
        } else {
            None
        },
        JsonModel::Text(text) => Some(ProgressTokenView::String(text)),
        _ => None,
    }
}

/// Why a JSON value is no token.
pub open spec fn token_error() -> Seq<char> {
    "data did not match any variant of untagged enum ProgressToken"@
}

/// `serde_json::from_value::<gen_lsp_types::ProgressToken>` of a copy of the
/// value: an integer that fits 32 bits or a text, and one fixed error for
/// anything else.
#[verifier::external_body]
pub(crate) fn parse_token(value: &Value) -> (result: Result<ProgressToken, String>)
    ensures
        match result {
            Ok(token) => token_of(json_model(*value)) == Some(token.deep_view()),
            Err(error) => token_of(json_model(*value)) is None && error@ == token_error(),
        },
{
    match serde_json::from_value::<gen_lsp_types::ProgressToken>(value.clone()) {
        Ok(gen_lsp_types::ProgressToken::Int(number)) => Ok(ProgressToken::Int(number)),
        Ok(gen_lsp_types::ProgressToken::String(text)) => Ok(ProgressToken::String(text)),
        Err(error) => Err(error.to_string()),
    }
}

} // verus!
