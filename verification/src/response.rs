//! Building the API Gateway proxy responses.

use http::StatusCode;
use juniper::{DefaultScalarValue, FieldError};
use vstd::prelude::*;

use crate::external::{
    content_type_header, content_type_name, error_response, field_error_response, graphiql_html,
    graphiql_page, json_text, json_value_text, playground_html, playground_page, response_json,
    response_json_text, status_bad_request, status_code_number, status_number, status_ok,
};

verus! {

/// The parts of an API Gateway proxy response: status code, headers, whether
/// the body is base64-encoded, and the body.
#[derive(Debug, PartialEq)]
pub struct ProxyResponse {
    pub status_code: i64,
    pub multi_value_headers: Vec<(String, Vec<String>)>,
    pub headers: Vec<(String, String)>,
    pub is_base64_encoded: Option<bool>,
    pub body: Option<String>,
}

/// The content type of HTML pages.
pub open spec fn html_type() -> Seq<char> {
    seq!['t', 'e', 'x', 't', '/', 'h', 't', 'm', 'l']
}

/// The content type of JSON documents.
pub open spec fn json_type() -> Seq<char> {
    seq!['a', 'p', 'p', 'l', 'i', 'c', 'a', 't', 'i', 'o', 'n', '/', 'j', 's', 'o', 'n']
}

impl ProxyResponse {
    /// The response has this status, a single `content-type` header with this
    /// type, no multi-valued headers, and this body, not base64-encoded.
    pub open spec fn is(self, status: int, content_type: Seq<char>, body: Seq<char>) -> bool {
        &&& self.status_code == status
        &&& self.multi_value_headers@.len() == 0
        &&& self.headers@.len() == 1
        &&& self.headers@[0].0@ == content_type_name()
        &&& self.headers@[0].1@ == content_type
        &&& self.is_base64_encoded == Some(false)
        &&& self.body matches Some(b) && b@ == body
    }
}

/// A response with the given status, content type and body.
pub fn response(status_code: StatusCode, content_type: String, body: String) -> (r: ProxyResponse)
    ensures
        r.is(status_number(status_code) as int, content_type@, body@),
{
    let status = status_code_number(&status_code);
    let mut headers: Vec<(String, String)> = Vec::with_capacity(1);
    headers.push((content_type_header(), content_type));
    ProxyResponse {
        status_code: status as i64,
        multi_value_headers: Vec::with_capacity(0),
        headers,
        is_base64_encoded: Some(false),
        body: Some(body),
    }
}

/// A 200 response holding an HTML page.
pub fn html(body: String) -> (r: ProxyResponse)
    ensures
        r.is(200, html_type(), body@),
{
    let content_type = "text/html".to_owned();
    proof {
        reveal_strlit("text/html");
        assert(content_type@ =~= html_type());
    }
    response(status_ok(), content_type, body)
}

/// A response with the given status holding a JSON document.
pub fn json(status_code: StatusCode, body: String) -> (r: ProxyResponse)
    ensures
        r.is(status_number(status_code) as int, json_type(), body@),
{
    let content_type = "application/json".to_owned();
    proof {
        reveal_strlit("application/json");
        assert(content_type@ =~= json_type());
    }
    response(status_code, content_type, body)
}

/// Whether each executed request succeeded, in the shape of the request:
/// one flag for a single request, one per request for a batch.
pub enum BatchOutcome {
    Single(bool),
    Batch(Vec<bool>),
}

impl BatchOutcome {
    /// Every request succeeded (an empty batch did).
    pub open spec fn all_ok(self) -> bool {
        match self {
            BatchOutcome::Single(ok) => ok,
            BatchOutcome::Batch(oks) => forall|i: int| 0 <= i < oks@.len() ==> #[trigger] oks@[i],
        }
    }

    /// Whether every request succeeded.
    pub fn is_ok(&self) -> (r: bool)
        ensures
            r == self.all_ok(),
    {
        match self {
            BatchOutcome::Single(ok) => *ok,
            BatchOutcome::Batch(oks) => {
                let mut all = true;
                let mut i: usize = 0;
                while i < oks.len()
                    invariant
                        0 <= i <= oks.len(),
                        all == (forall|j: int| 0 <= j < i ==> #[trigger] oks@[j]),
                    decreases oks.len() - i,
                {
                    all = all && oks[i];
                    i = i + 1;
                }
                all
            },
        }
    }
}

/// The response to executed requests: their JSON text, with status 200 where
/// every request succeeded and 400 otherwise.
pub fn execution_response(outcome: &BatchOutcome, body: String) -> (r: ProxyResponse)
    ensures
        r.is(if outcome.all_ok() { 200 } else { 400 }, json_type(), body@),
{
    let status_code = if outcome.is_ok() {
        status_ok()
    } else {
        status_bad_request()
    };
    json(status_code, body)
}

/// Constructs an error response outside of the normal execution flow.
pub fn error(field_error: FieldError<DefaultScalarValue>) -> (r: ProxyResponse)
    ensures
        r.is(400, json_type(), response_json(field_error_response(field_error))),
{
    let response = error_response(field_error);
    let body = response_json_text(&response);
    json(status_bad_request(), body)
}

/// Constructs a custom response outside of the normal execution flow: the
/// JSON text of `response` with the given status.
pub fn custom(status_code: StatusCode, response: serde_json::Value) -> (r: ProxyResponse)
    ensures
        r.is(status_number(status_code) as int, json_type(), json_text(response)),
{
    let body = json_value_text(&response);
    json(status_code, body)
}

/// Generates an HTML page containing GraphiQL.
pub fn graphiql_source(graphql_endpoint_url: &str) -> (r: ProxyResponse)
    ensures
        r.is(200, html_type(), graphiql_page(graphql_endpoint_url@)),
{
    html(graphiql_html(graphql_endpoint_url))
}

/// Generates an HTML page containing GraphQL Playground.
pub fn playground_source(graphql_endpoint_url: &str) -> (r: ProxyResponse)
    ensures
        r.is(200, html_type(), playground_page(graphql_endpoint_url@)),
{
    html(playground_html(graphql_endpoint_url))
}

} // verus!
