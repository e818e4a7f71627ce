use http::StatusCode;
use juniper::FieldError;
use juniper_aws_api_gateway_lambda::response::{
    custom, error, execution_response, graphiql_source, html, json, playground_source,
    BatchOutcome, ProxyResponse,
};

fn content_type(response: &ProxyResponse) -> &str {
    assert_eq!(response.headers.len(), 1);
    assert_eq!(response.headers[0].0, "content-type");
    &response.headers[0].1
}

#[test]
fn html_and_json_responses() {
    let page = html("<p>hi</p>".to_string());
    assert_eq!(page.status_code, 200);
    assert_eq!(content_type(&page), "text/html");
    assert_eq!(page.body, Some("<p>hi</p>".to_string()));
    assert_eq!(page.is_base64_encoded, Some(false));
    assert!(page.multi_value_headers.is_empty());

    let doc = json(StatusCode::NOT_FOUND, "{}".to_string());
    assert_eq!(doc.status_code, 404);
    assert_eq!(content_type(&doc), "application/json");
    assert_eq!(doc.body, Some("{}".to_string()));
}

#[test]
fn execution_status_follows_outcome() {
    let ok = execution_response(&BatchOutcome::Single(true), "{\"data\":1}".to_string());
    assert_eq!(ok.status_code, 200);
    assert_eq!(content_type(&ok), "application/json");
    assert_eq!(ok.body, Some("{\"data\":1}".to_string()));
    assert_eq!(execution_response(&BatchOutcome::Single(false), String::new()).status_code, 400);
    assert_eq!(execution_response(&BatchOutcome::Batch(vec![true, true]), String::new()).status_code, 200);
    assert_eq!(execution_response(&BatchOutcome::Batch(vec![true, false]), String::new()).status_code, 400);
    assert_eq!(execution_response(&BatchOutcome::Batch(Vec::new()), String::new()).status_code, 200);
    assert!(BatchOutcome::Batch(vec![true, true, true]).is_ok());
    assert!(!BatchOutcome::Batch(vec![false, true]).is_ok());
}

#[test]
fn error_response_reports_the_message() {
    let response = error(FieldError::from("boom"));
    assert_eq!(response.status_code, 400);
    assert_eq!(content_type(&response), "application/json");
    let body: serde_json::Value = serde_json::from_str(response.body.as_ref().unwrap()).unwrap();
    assert_eq!(body["data"], serde_json::Value::Null);
    assert_eq!(body["errors"][0]["message"], serde_json::Value::String("boom".to_string()));
}

#[test]
fn custom_response_writes_the_value() {
    let mut map = serde_json::Map::new();
    map.insert("ok".to_string(), serde_json::Value::Bool(true));
    let response = custom(StatusCode::CREATED, serde_json::Value::Object(map));
    assert_eq!(response.status_code, 201);
    assert_eq!(content_type(&response), "application/json");
    assert_eq!(response.body, Some("{\"ok\":true}".to_string()));
}

#[test]
fn graphiql_and_playground_pages() {
    let graphiql = graphiql_source("/graphql-endpoint");
    assert_eq!(graphiql.status_code, 200);
    assert_eq!(content_type(&graphiql), "text/html");
    let body = graphiql.body.unwrap();
    assert!(body.contains("/graphql-endpoint"));
    assert!(body.contains("GraphiQL"));
    assert_eq!(body, juniper::http::graphiql::graphiql_source("/graphql-endpoint"));

    let playground = playground_source("/graphql-endpoint");
    assert_eq!(playground.status_code, 200);
    assert_eq!(content_type(&playground), "text/html");
    let body = playground.body.unwrap();
    assert!(body.contains("/graphql-endpoint"));
    assert_ne!(body, "/graphql-endpoint");
    assert_eq!(body, juniper::http::playground::playground_source("/graphql-endpoint"));
}
