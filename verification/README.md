# juniper_aws_api_gateway_lambda

Serving a [Juniper](https://github.com/graphql-rust/juniper) GraphQL schema
from AWS Lambda behind API Gateway, with the request decoding and the
response building proved correct by Verus.

- `src/` is the verified library:
  - `request.rs` decodes GET query strings and POST bodies into GraphQL
    requests (`GraphQLRequest::try_from`), with the decoding stated as spec
    functions (`request_outcome`, `get_outcome`, `post_outcome`);
  - `decode.rs` states percent-decoding and the HTTP method grammar;
  - `response.rs` builds the proxy responses (JSON, HTML, errors, GraphiQL and
    Playground pages);
  - `laws.rs` proves properties of the decoding as a whole, such as that the
    order of the query string parameters does not matter;
  - `external.rs` holds the contracts believed of `http`, `juniper`,
    `percent-encoding` and `serde_json`.
- `app/` converts API Gateway events to and from the library's types, reads
  JSON bodies, executes requests against a schema and implements the Lambda
  handler.
