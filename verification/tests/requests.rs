use juniper::InputValue;
use juniper_aws_api_gateway_lambda::decode;
use juniper_aws_api_gateway_lambda::error::Error;
use juniper_aws_api_gateway_lambda::request::{
    GetGraphQLRequest, GraphQLBatchRequest, GraphQLRequest, PostBody, ProxyRequest, QueryParameters,
    SingleRequest,
};

fn empty_request() -> ProxyRequest {
    ProxyRequest {
        http_method: None,
        multi_value_query_string_parameters: Vec::new(),
        body: None,
    }
}

fn params(entries: &[(&str, &[&str])]) -> Vec<(String, Vec<String>)> {
    entries
        .iter()
        .map(|(key, values)| (key.to_string(), values.iter().map(|v| v.to_string()).collect()))
        .collect()
}

fn check_error(req: ProxyRequest, error: Error) {
    let result: Result<GraphQLRequest, Error> = GraphQLRequest::try_from(req);
    assert!(result.is_err());
    assert_eq!(result.unwrap_err(), error);
}

fn single(query: &str, operation_name: Option<&str>, variables: Option<InputValue>) -> GraphQLRequest {
    GraphQLRequest(GraphQLBatchRequest::Single(SingleRequest {
        query: query.to_string(),
        operation_name: operation_name.map(|n| n.to_string()),
        variables,
    }))
}

#[test]
fn empty_get() {
    let mut req = empty_request();
    req.http_method = Some("GET".into());
    check_error(req, Error::MissingQuery);
}

#[test]
fn empty_post() {
    // The body "" is neither one request nor a list of them.
    let mut req = empty_request();
    req.http_method = Some("POST".into());
    req.body = Some(PostBody::Malformed);
    check_error(req, Error::InvalidBody);
}

#[test]
fn no_query() {
    let mut req = empty_request();
    req.http_method = Some("GET".into());
    req.multi_value_query_string_parameters =
        params(&[("operation_name", &["foo"]), ("variables", &["{}"])]);
    check_error(req, Error::MissingQuery);
}

#[test]
fn prohibited_extra_field() {
    let mut req = empty_request();
    req.http_method = Some("GET".into());
    req.multi_value_query_string_parameters = params(&[
        ("query", &[""]),
        ("operation_name", &["foo"]),
        ("variables", &["{}"]),
        ("extra", &["field"]),
    ]);
    check_error(req, Error::ProhibitExtraField(String::from("extra")));
}

#[test]
fn duplicate_query() {
    let mut req = empty_request();
    req.http_method = Some("GET".into());
    req.multi_value_query_string_parameters = params(&[
        ("query", &["", ""]),
        ("operation_name", &["foo"]),
        ("variables", &["{}"]),
    ]);
    check_error(req, Error::MultipleQueryParameter);
}

#[test]
fn duplicate_operation_name() {
    let mut req = empty_request();
    req.http_method = Some("GET".into());
    req.multi_value_query_string_parameters = params(&[
        ("query", &[""]),
        ("operation_name", &["foo", ""]),
        ("variables", &["{}"]),
    ]);
    check_error(req, Error::MultipleOperationNameParameter);
}

#[test]
fn duplicate_variables() {
    let mut req = empty_request();
    req.http_method = Some("GET".into());
    req.multi_value_query_string_parameters = params(&[
        ("query", &[""]),
        ("operation_name", &["foo"]),
        ("variables", &["{}", "{}"]),
    ]);
    check_error(req, Error::MultipleVariablesParameter);
}

#[test]
fn variables_invalid_json() {
    let mut req = empty_request();
    req.http_method = Some("GET".into());
    req.multi_value_query_string_parameters = params(&[
        ("query", &[""]),
        ("operation_name", &["foo"]),
        ("variables", &["{a: 1,}"]),
    ]);
    check_error(req, Error::InvalidVariablesParameter);
}

#[test]
fn variables_valid_json() {
    let mut req = empty_request();
    req.http_method = Some("GET".into());
    req.multi_value_query_string_parameters =
        params(&[("query", &["test"]), ("variables", &[r#"{"foo":"bar"}"#])]);
    let result = GraphQLRequest::try_from(req);
    assert!(result.is_ok());
    let variables = serde_json::from_str::<InputValue>(r#"{"foo":"bar"}"#).unwrap();
    let expected = single("test", None, Some(variables));
    assert_eq!(result.unwrap(), expected);
}

#[test]
fn variables_encoded_json() {
    let mut req = empty_request();
    req.http_method = Some("GET".into());
    req.multi_value_query_string_parameters =
        params(&[("query", &["test"]), ("variables", &[r#"{"foo": "x%20y%26%3F+z"}"#])]);
    let result = GraphQLRequest::try_from(req);
    assert!(result.is_ok());
    let variables = serde_json::from_str::<InputValue>(r#"{"foo":"x y&?+z"}"#).unwrap();
    let expected = single("test", None, Some(variables));
    assert_eq!(result.unwrap(), expected);
}

#[test]
fn url_decode() {
    let mut req = empty_request();
    req.http_method = Some("GET".into());
    req.multi_value_query_string_parameters = params(&[
        ("query", &["%25foo%20bar+baz%26%3F"]),
        ("operation_name", &["test"]),
    ]);
    let result = GraphQLRequest::try_from(req);
    assert!(result.is_ok());
    let expected = single("%foo bar+baz&?", Some("test"), None);
    assert_eq!(result.unwrap(), expected);
}

#[test]
fn get_with_operation_name_and_variables_in_any_order() {
    let mut req = empty_request();
    req.http_method = Some("GET".into());
    req.multi_value_query_string_parameters = params(&[
        ("variables", &[r#"{"n":1}"#]),
        ("operation_name", &["Op"]),
        ("query", &["query Op { a }"]),
    ]);
    let variables = serde_json::from_str::<InputValue>(r#"{"n":1}"#).unwrap();
    let expected = single("query Op { a }", Some("Op"), Some(variables));
    assert_eq!(GraphQLRequest::try_from(req).unwrap(), expected);
}

#[test]
fn get_query_without_value() {
    let mut req = empty_request();
    req.http_method = Some("GET".into());
    req.multi_value_query_string_parameters = params(&[("query", &[])]);
    check_error(req, Error::MissingQuery);
}

#[test]
fn get_invalid_encoding() {
    let mut req = empty_request();
    req.http_method = Some("GET".into());
    req.multi_value_query_string_parameters = params(&[("query", &["%FF"])]);
    check_error(req, Error::InvalidQueryParameterEncoding);
}

#[test]
fn get_first_refusal_decides() {
    let mut req = empty_request();
    req.http_method = Some("GET".into());
    req.multi_value_query_string_parameters =
        params(&[("other", &["x"]), ("query", &["a", "b"])]);
    check_error(req, Error::ProhibitExtraField(String::from("other")));
}

#[test]
fn get_empty_operation_name_is_read() {
    let mut req = empty_request();
    req.http_method = Some("GET".into());
    req.multi_value_query_string_parameters = params(&[("query", &["q"]), ("operation_name", &[])]);
    assert!(GraphQLRequest::reads_empty_value(&req));
    match juniper_aws_api_gateway_lambda::request::scan_query_parameters(
        &req.multi_value_query_string_parameters,
    ) {
        QueryParameters::EmptyValueRead => {}
        _ => panic!("the empty operation name is read"),
    }
    req.multi_value_query_string_parameters = params(&[("extra", &[]), ("operation_name", &[])]);
    assert!(!GraphQLRequest::reads_empty_value(&req));
    req.http_method = Some("POST".into());
    req.multi_value_query_string_parameters = params(&[("operation_name", &[])]);
    assert!(!GraphQLRequest::reads_empty_value(&req));
}

#[test]
fn scan_keeps_last_value_of_repeated_key() {
    let scanned = juniper_aws_api_gateway_lambda::request::scan_query_parameters(&params(&[
        ("query", &["first"]),
        ("query", &["second%21"]),
    ]));
    match scanned {
        QueryParameters::Collected { query, operation_name, variables } => {
            assert_eq!(query, Some("second!".to_string()));
            assert_eq!(operation_name, None);
            assert_eq!(variables, None);
        }
        _ => panic!("both values are accepted"),
    }
}

#[test]
fn unknown_and_invalid_methods() {
    check_error(empty_request(), Error::UnknownMethod(String::new()));
    let mut req = empty_request();
    req.http_method = Some("G(T".into());
    check_error(req, Error::UnknownMethod("G(T".to_string()));
    let mut req = empty_request();
    req.http_method = Some("PUT".into());
    check_error(req, Error::InvalidMethod(http::Method::PUT));
    let mut req = empty_request();
    req.http_method = Some("get".into());
    check_error(req, Error::InvalidMethod(http::Method::from_bytes(b"get").unwrap()));
}

#[test]
fn post_single_and_batch() {
    let entry = |query: &str, name: Option<&str>, variables: Option<&str>| GetGraphQLRequest {
        query: query.to_string(),
        operation_name: name.map(|n| n.to_string()),
        variables: variables.map(|v| v.to_string()),
    };
    let mut req = empty_request();
    req.http_method = Some("POST".into());
    req.body = Some(PostBody::Single(entry("{ a }", Some("A"), None)));
    assert_eq!(GraphQLRequest::try_from(req).unwrap(), single("{ a }", Some("A"), None));

    let mut req = empty_request();
    req.http_method = Some("POST".into());
    req.body = Some(PostBody::Batch(vec![entry("{ a }", None, Some("{}")), entry("{ b }", Some("B"), None)]));
    let result = GraphQLRequest::try_from(req).unwrap();
    let empty_object = serde_json::from_str::<InputValue>("{}").unwrap();
    let expected = GraphQLRequest(GraphQLBatchRequest::Batch(vec![
        SingleRequest { query: "{ a }".to_string(), operation_name: None, variables: Some(empty_object) },
        SingleRequest { query: "{ b }".to_string(), operation_name: Some("B".to_string()), variables: None },
    ]));
    assert_eq!(result, expected);
    assert_eq!(result.operation_names(), vec![None, Some("B")]);

    let mut req = empty_request();
    req.http_method = Some("POST".into());
    req.body = Some(PostBody::Batch(vec![entry("{ a }", None, None), entry("{ b }", None, Some("nope"))]));
    check_error(req, Error::InvalidVariablesParameter);

    let mut req = empty_request();
    req.http_method = Some("POST".into());
    req.body = Some(PostBody::Batch(Vec::new()));
    assert_eq!(
        GraphQLRequest::try_from(req).unwrap(),
        GraphQLRequest(GraphQLBatchRequest::Batch(Vec::new()))
    );

    let mut req = empty_request();
    req.http_method = Some("POST".into());
    check_error(req, Error::MissingPostBody);
}

#[test]
fn operation_names_of_single_request() {
    assert_eq!(single("{ a }", Some("A"), None).operation_names(), vec![Some("A")]);
    assert_eq!(single("{ a }", None, None).operation_names(), vec![None]);
}

#[test]
fn url_decoding() {
    assert_eq!(decode::url_decode("%25foo%20bar+baz%26%3F"), Ok("%foo bar+baz&?".to_string()));
    assert_eq!(decode::url_decode("a%zzb%4"), Ok("a%zzb%4".to_string()));
    assert_eq!(decode::url_decode("%c3%A9"), Ok("\u{e9}".to_string()));
    assert_eq!(decode::url_decode("%FF"), Err(Error::InvalidQueryParameterEncoding));
    assert_eq!(decode::url_decode("plain"), Ok("plain".to_string()));
}

#[test]
fn parameter_order_does_not_matter() {
    let entries: [(&str, &[&str]); 3] = [
        ("query", &["query%20Q%20%7B%20a%20%7D"]),
        ("operation_name", &["Q"]),
        ("variables", &[r#"{"x":[1,2]}"#]),
    ];
    let mut results = Vec::new();
    for order in [[0, 1, 2], [2, 1, 0], [1, 2, 0]] {
        let mut req = empty_request();
        req.http_method = Some("GET".into());
        req.multi_value_query_string_parameters = params(&order.map(|i| entries[i]));
        results.push(GraphQLRequest::try_from(req).unwrap());
    }
    let variables = serde_json::from_str::<InputValue>(r#"{"x":[1,2]}"#).unwrap();
    assert_eq!(results[0], single("query Q { a }", Some("Q"), Some(variables)));
    assert_eq!(results[0], results[1]);
    assert_eq!(results[0], results[2]);
}

#[test]
fn each_method_reads_only_its_part() {
    let mut req = empty_request();
    req.http_method = Some("GET".into());
    req.multi_value_query_string_parameters = params(&[("query", &["{ a }"])]);
    req.body = Some(PostBody::Malformed);
    assert_eq!(GraphQLRequest::try_from(req).unwrap(), single("{ a }", None, None));

    let mut req = empty_request();
    req.http_method = Some("POST".into());
    req.multi_value_query_string_parameters = params(&[("extra", &["x", "y"])]);
    req.body = Some(PostBody::Single(GetGraphQLRequest {
        query: "{ b }".to_string(),
        operation_name: None,
        variables: None,
    }));
    assert_eq!(GraphQLRequest::try_from(req).unwrap(), single("{ b }", None, None));
}

#[test]
fn method_keeps_its_text() {
    let get = juniper_aws_api_gateway_lambda::request::method(&"get".to_string()).unwrap();
    assert_eq!(get.as_str(), "get");
    assert_ne!(get, http::Method::GET);
    let put = juniper_aws_api_gateway_lambda::request::method(&"PUT".to_string()).unwrap();
    assert_eq!(put, http::Method::PUT);
    assert_eq!(
        juniper_aws_api_gateway_lambda::request::method(&"".to_string()),
        Err(Error::UnknownMethod(String::new()))
    );

    let mut req = empty_request();
    req.http_method = Some("PUT".into());
    req.body = Some(PostBody::Single(GetGraphQLRequest {
        query: "{a}".to_string(),
        operation_name: None,
        variables: None,
    }));
    check_error(req, Error::InvalidMethod(http::Method::PUT));
}

#[test]
fn url_decode_inverts_percent_encoding() {
    for text in ["", "plain", "%foo bar+baz&?", "x y&?+z", "\u{e9}t\u{e9} \u{1f600}", "%41%"] {
        let encoded =
            percent_encoding::utf8_percent_encode(text, percent_encoding::NON_ALPHANUMERIC).to_string();
        assert_eq!(decode::url_decode(&encoded), Ok(text.to_string()));
    }
}
