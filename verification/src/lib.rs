//! Verified request decoding and response building for serving a Juniper
//! GraphQL schema behind AWS API Gateway (Lambda proxy integration).
//!
//! An incoming event is taken as a [`request::ProxyRequest`]: GET requests are
//! decoded from their query string parameters (`query`, `operation_name`,
//! `variables`, percent-encoded), POST requests from their JSON body (one
//! request or a list of them). Responses are built as
//! [`response::ProxyResponse`] values with a JSON or HTML content type.

pub mod decode;
pub mod error;
pub mod external;
pub mod laws;
pub mod request;
pub mod response;

pub use error::Error;
pub use request::GraphQLRequest;
pub use response::{custom, error, graphiql_source, playground_source};
