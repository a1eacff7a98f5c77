//! The single JSON-RPC params/result codec: exactly one decode per dispatched
//! method and exactly one result encode per request.
use vstd::prelude::*;

use serde_json::Value;

use crate::error::{LspError, LspErrorView};
use crate::json::{
    encode_json, encoded_json, json_entries, json_entry, json_get, json_is_null, json_model,
    null_body, parse_json, parse_token, parsed_json, token_error, token_of, JsonModel,
};
use crate::message::{ProgressToken, ProgressTokenView};
use crate::params::{check_params, checked, present, present_params};
use crate::text::{between, same_bytes};

verus! {

/// Decode the transport's parameter bytes into the method-erased value that
/// crosses the Service stack. An empty payload is treated as an empty object, so
/// parameterless methods decode cleanly.
pub fn decode_value(params: &Vec<u8>) -> (result: Result<Value, LspError>)
    ensures
        match result {
            Ok(value) => checked(parsed_json(present(params@))) == Ok::<JsonModel, LspErrorView>(
                json_model(value),
            ),
            Err(error) => checked(parsed_json(present(params@))) == Err::<JsonModel, LspErrorView>(
                error@,
            ),
        },
{
    check_params(parse_json(present_params(params).as_slice()))
}

/// The token in a field of parameters: none where the field is missing or null.
pub open spec fn field_token(params: JsonModel, field: Seq<char>) -> Result<
    Option<ProgressTokenView>,
    Seq<char>,
> {
    match json_entry(params, field) {
        None => Ok(None),
        Some(JsonModel::Null) => Ok(None),
        Some(value) => match token_of(value) {
            Some(token) => Ok(Some(token)),
            None => Err(token_error()),
        },
    }
}

/// Read one optional token field from already-decoded request parameters.
///
/// Both endpoint directions use this lookup so work-done and partial-result
/// token handling agree on missing and explicit-null fields.
pub fn request_token(params: &Value, field: &str) -> (result: Result<
    Option<ProgressToken>,
    String,
>)
    ensures
        match result {
            Ok(token) => field_token(json_model(*params), field@) == Ok::<
                Option<ProgressTokenView>,
                Seq<char>,
            >(token.deep_view()),
            Err(error) => field_token(json_model(*params), field@) == Err::<
                Option<ProgressTokenView>,
                Seq<char>,
            >(error@),
        },
{
    let value = match json_get(params, field) {
        Some(value) => value,
        None => return Ok(None),
    };
    if json_is_null(value) {
        return Ok(None);
    }
    match parse_token(value) {
        Ok(token) => Ok(Some(token)),
        Err(error) => Err(error),
    }
}

/// The params member of encoded parameters: absent for a null payload.
pub open spec fn params_member(encoded: Seq<u8>) -> Seq<u8> {
    if encoded == null_body() {
        Seq::empty()
    } else {
        encoded
    }
}

/// The params member of encoded parameters.
///
/// JSON-RPC permits parameters to be absent, an object, or an array, but not
/// `null`. Parameterless methods encode as `null`, which becomes an absent
/// `params` member.
pub fn omit_null(encoded: Vec<u8>) -> (member: Vec<u8>)
    ensures
        member@ == params_member(encoded@),
{
    let null: Vec<u8> = vec![110u8, 117u8, 108u8, 108u8];
    assert(null@ =~= null_body());
    if same_bytes(&encoded, &null) {
        Vec::new()
    } else {
        encoded
    }
}

/// Encode JSON-RPC parameters, omitting a null payload.
pub fn encode_params(params: &Value) -> (result: Result<Vec<u8>, String>)
    ensures
        match result {
            Ok(member) => encoded_json(json_model(*params)) is Ok && member@ == params_member(
                encoded_json(json_model(*params))->Ok_0,
            ),
            Err(error) => encoded_json(json_model(*params)) == Err::<Seq<u8>, Seq<char>>(error@),
        },
        json_model(*params) is Null ==> result is Ok && result->Ok_0@.len() == 0,
{
    match encode_json(params) {
        Ok(encoded) => Ok(omit_null(encoded)),
        Err(error) => Err(error),
    }
}

/// The failure of an encoding, as an internal error.
pub open spec fn encoding_failure(error: Seq<char>) -> LspErrorView {
    LspErrorView::Internal("serialization failed: "@ + error)
}

/// The body of an encoded result.
pub open spec fn body_of(value: JsonModel) -> Result<Seq<u8>, LspErrorView> {
    match encoded_json(value) {
        Ok(body) => Ok(body),
        Err(error) => Err(encoding_failure(error)),
    }
}

/// A failed encoding, as an internal error.
pub fn serialization_failed(error: &str) -> (failure: LspError)
    ensures
        failure@ == encoding_failure(error@),
{
    let failure = LspError::Internal(between("serialization failed: ", error, ""));
    proof {
        reveal_strlit("");
        assert("serialization failed: "@ + error@ + ""@ =~= "serialization failed: "@ + error@);
    }
    failure
}

/// Encode a success value to its JSON body bytes exactly once, mapping a
/// serialization failure to an internal error.
pub fn encode_body(value: &Value) -> (result: Result<Vec<u8>, LspError>)
    ensures
        match result {
            Ok(body) => body_of(json_model(*value)) == Ok::<Seq<u8>, LspErrorView>(body@),
            Err(error) => body_of(json_model(*value)) == Err::<Seq<u8>, LspErrorView>(error@),
        },
        json_model(*value) is Null ==> result is Ok && result->Ok_0@ == null_body(),
{
    match encode_json(value) {
        Ok(body) => Ok(body),
        Err(error) => Err(serialization_failed(error.as_str())),
    }
}

/// Whether the bytes of `initialized` parameters say nothing: `null`, or an
/// empty object.
pub open spec fn says_nothing(params: Seq<u8>) -> bool {
    match parsed_json(params) {
        Ok(JsonModel::Null) => true,
        Ok(JsonModel::Object(entries)) => entries.dom().finite() && entries.dom().len() == 0,
        _ => false,
    }
}

/// The failure of malformed `initialized` parameters.
pub open spec fn initialized_failure() -> LspErrorView {
    LspErrorView::InvalidParams("initialized params must be an empty object"@)
}

/// Decode the client's `initialized` notification params.
///
/// They are an empty object, and clients send either `{}` or no params at all
/// (JSON-RPC `null`). Accepting both keeps the hook reachable from every real
/// client.
pub fn decode_initialized_params(params: &Vec<u8>) -> (result: Result<(), LspError>)
    ensures
        match result {
            Ok(_) => says_nothing(params@),
            Err(error) => !says_nothing(params@) && error@ == initialized_failure(),
        },
{
    if let Ok(value) = parse_json(params.as_slice()) {
        if json_is_null(&value) {
            return Ok(());
        }
        if let Some(count) = json_entries(&value) {
            if count == 0 {
                return Ok(());
            }
        }
    }
    Err(LspError::InvalidParams("initialized params must be an empty object".to_owned()))
}

/// Parameters that encode as `null` are absent, and absent parameters decode as
/// an empty object does: the two sides agree on a parameterless call.
pub proof fn law_absent_parameters_decode_as_an_empty_object(encoded: Seq<u8>)
    ensures
        params_member(null_body()).len() == 0,
        present(params_member(null_body())) == seq![123u8, 125u8],
        encoded != null_body() ==> params_member(encoded) == encoded,
{
    assert(present(params_member(null_body())) =~= seq![123u8, 125u8]);
}

} // verus!
