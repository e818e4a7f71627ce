//! The outside crates' items that the library calls, with the contracts that
//! are believed of them.

use http::header::CONTENT_TYPE;
use http::method::InvalidMethod;
use http::{Method, StatusCode};
use juniper::http::graphiql::graphiql_source;
use juniper::http::playground::playground_source;
use juniper::http::GraphQLResponse;
use juniper::{DefaultScalarValue, FieldError, InputValue};
use percent_encoding::percent_decode_str;
use serde_json::Error as JsonError;
use std::convert::TryFrom;
use vstd::prelude::*;

use crate::decode::{is_method_token, url_decoded};

verus! {

/// `http::Method`, held by an `InvalidMethod` refusal; opaque here.
#[verifier::external_type_specification]
#[verifier::external_body]
pub struct ExMethod(Method);

/// `http::method::InvalidMethod`, the error of parsing a method; opaque here.
#[verifier::external_type_specification]
#[verifier::external_body]
pub struct ExInvalidMethod(InvalidMethod);

/// `http::StatusCode`; opaque here, read through its number.
#[verifier::external_type_specification]
#[verifier::external_body]
pub struct ExStatusCode(StatusCode);

/// `juniper::DefaultScalarValue`, the scalars of the input values; opaque here.
#[verifier::external_type_specification]
#[verifier::external_body]
pub struct ExDefaultScalarValue(DefaultScalarValue);

/// `juniper::InputValue`, the variables of a request; carried through opaque.
#[verifier::external_type_specification]
#[verifier::external_body]
#[verifier::reject_recursive_types(S)]
pub struct ExInputValue<S>(InputValue<S>);

/// `juniper::FieldError`, reported by an error response; opaque here.
#[verifier::external_type_specification]
#[verifier::external_body]
#[verifier::reject_recursive_types(S)]
pub struct ExFieldError<S>(FieldError<S>);

/// `juniper::http::GraphQLResponse`; opaque here, read through its JSON text.
#[verifier::external_type_specification]
#[verifier::external_body]
#[verifier::reject_recursive_types(S)]
pub struct ExGraphQLResponse<'a, S>(GraphQLResponse<'a, S>);

/// `serde_json::Value`, the document of a custom response; opaque here.
#[verifier::external_type_specification]
#[verifier::external_body]
pub struct ExJsonValue(serde_json::Value);

/// `serde_json::Error`, the error of reading variables; opaque here.
#[verifier::external_type_specification]
#[verifier::external_body]
pub struct ExJsonError(JsonError);

/// The text of an `http::Method`, as `Method::as_str` gives it.
pub uninterp spec fn method_text(method: Method) -> Seq<char>;

/// `http::Method::as_str`: the method's text ("GET" for `Method::GET`, the
/// name itself for an extension method).
#[verifier::external_body]
pub(crate) fn method_str(method: &Method) -> (r: &str)
    ensures
        r@ == method_text(*method),
{
    method.as_str()
}

/// `http::Method::try_from(&str)`: the text is accepted exactly when it is
/// non-empty and made only of the characters that http's method table allows,
/// and the method it gives has that text (the standard methods are matched
/// on their exact bytes, an extension method keeps its bytes).
#[verifier::external_body]
pub(crate) fn parse_method(raw: &str) -> (r: Result<Method, InvalidMethod>)
    ensures
        r is Ok <==> is_method_token(raw@),
        r matches Ok(m) ==> method_text(m) == raw@,
{
    Method::try_from(raw)
}

/// `percent_encoding::percent_decode_str(input).decode_utf8()`: every `%`
/// followed by two hexadecimal digits becomes the byte they spell, every other
/// byte is kept, and the bytes are then read as UTF-8, which fails exactly
/// when they are not valid UTF-8.
#[verifier::external_body]
pub(crate) fn percent_decode_utf8(input: &str) -> (r: Option<String>)
    ensures
        match r {
            Some(s) => url_decoded(input@) == Some(s@),
            None => url_decoded(input@) is None,
        },
{
    match percent_decode_str(input).decode_utf8() {
        Ok(decoded) => Some(decoded.into_owned()),
        Err(_) => None,
    }
}

/// What `serde_json::from_str::<InputValue<DefaultScalarValue>>` makes of a
/// text: `None` where it reports an error.
pub uninterp spec fn json_input_value(text: Seq<char>) -> Option<InputValue<DefaultScalarValue>>;

/// `serde_json::from_str::<InputValue<DefaultScalarValue>>`: its outcome is
/// what [`json_input_value`] names for the text.
#[verifier::external_body]
pub(crate) fn parse_input_value(text: &str) -> (r: Result<InputValue<DefaultScalarValue>, JsonError>)
    ensures
        match r {
            Ok(v) => json_input_value(text@) == Some(v),
            Err(_) => json_input_value(text@) is None,
        },
{
    serde_json::from_str::<InputValue<DefaultScalarValue>>(text)
}

/// The number that `http::StatusCode::as_u16` gives for a status code.
pub uninterp spec fn status_number(code: StatusCode) -> u16;

/// `http::StatusCode::as_u16`: the code's number, which is always between 100
/// and 999.
#[verifier::external_body]
pub(crate) fn status_code_number(code: &StatusCode) -> (r: u16)
    ensures
        r == status_number(*code),
        100 <= r <= 999,
{
    code.as_u16()
}

/// `http::StatusCode::OK`, whose number is 200.
#[verifier::external_body]
pub(crate) fn status_ok() -> (r: StatusCode)
    ensures
        status_number(r) == 200,
{
    StatusCode::OK
}

/// `http::StatusCode::BAD_REQUEST`, whose number is 400.
#[verifier::external_body]
pub(crate) fn status_bad_request() -> (r: StatusCode)
    ensures
        status_number(r) == 400,
{
    StatusCode::BAD_REQUEST
}

/// The name "content-type".
pub open spec fn content_type_name() -> Seq<char> {
    seq!['c', 'o', 'n', 't', 'e', 'n', 't', '-', 't', 'y', 'p', 'e']
}

/// `http::header::CONTENT_TYPE.to_string()`: the header's lower-case name,
/// "content-type".
#[verifier::external_body]
pub(crate) fn content_type_header() -> (r: String)
    ensures
        r@ == content_type_name(),
{
    CONTENT_TYPE.to_string()
}

/// The HTML page that `juniper::http::graphiql::graphiql_source` makes for an
/// endpoint URL.
pub uninterp spec fn graphiql_page(url: Seq<char>) -> Seq<char>;

/// `juniper::http::graphiql::graphiql_source`: the GraphiQL page for the
/// endpoint.
#[verifier::external_body]
pub(crate) fn graphiql_html(url: &str) -> (r: String)
    ensures
        r@ == graphiql_page(url@),
{
    graphiql_source(url)
}

/// The HTML page that `juniper::http::playground::playground_source` makes
/// for an endpoint URL.
pub uninterp spec fn playground_page(url: Seq<char>) -> Seq<char>;

/// `juniper::http::playground::playground_source`: the GraphQL Playground
/// page for the endpoint.
#[verifier::external_body]
pub(crate) fn playground_html(url: &str) -> (r: String)
    ensures
        r@ == playground_page(url@),
{
    playground_source(url)
}

/// The JSON text that `serde_json::to_string` writes for a JSON value.
pub uninterp spec fn json_text(value: serde_json::Value) -> Seq<char>;

/// `serde_json::to_string` on a JSON value. It cannot fail on a value: its
/// maps have string keys and its numbers are finite.
#[verifier::external_body]
pub(crate) fn json_value_text(value: &serde_json::Value) -> (r: String)
    ensures
        r@ == json_text(*value),
{
    serde_json::to_string(value).unwrap()
}

/// The response that `juniper::http::GraphQLResponse::error` makes of a
/// field error.
pub uninterp spec fn field_error_response(error: FieldError<DefaultScalarValue>) -> GraphQLResponse<'static, DefaultScalarValue>;

/// `juniper::http::GraphQLResponse::error`: a response that reports the error
/// at the origin.
#[verifier::external_body]
pub(crate) fn error_response(error: FieldError<DefaultScalarValue>) -> (r: GraphQLResponse<'static, DefaultScalarValue>)
    ensures
        r == field_error_response(error),
{
    GraphQLResponse::error(error)
}

/// The JSON text that `serde_json::to_string` writes for a GraphQL response.
pub uninterp spec fn response_json(response: GraphQLResponse<'static, DefaultScalarValue>) -> Seq<char>;

/// `serde_json::to_string` on a GraphQL response. Juniper's serialisation of
/// a response with default scalars reports no error: it writes maps with
/// string keys, and serde_json writes a non-finite float as `null`.
#[verifier::external_body]
pub(crate) fn response_json_text(response: &GraphQLResponse<'static, DefaultScalarValue>) -> (r: String)
    ensures
        r@ == response_json(*response),
{
    serde_json::to_string(response).unwrap()
}

} // verus!
