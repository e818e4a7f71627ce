//! Turning an API Gateway proxy request into GraphQL requests.

use http::Method;
use juniper::{DefaultScalarValue, InputValue};
use vstd::prelude::*;

use crate::decode::{is_method_token, url_decode, url_decoded};
use crate::error::{Error, ErrorView};
use crate::external::{json_input_value, method_str, method_text, parse_input_value, parse_method};

verus! {

/// One GraphQL operation to run: its document, the operation to pick in it
/// and the variables it is given.
#[derive(Debug, PartialEq)]
pub struct SingleRequest {
    pub query: String,
    pub operation_name: Option<String>,
    pub variables: Option<InputValue<DefaultScalarValue>>,
}

/// A [`SingleRequest`] with its texts taken as character sequences.
pub struct RequestView {
    pub query: Seq<char>,
    pub operation_name: Option<Seq<char>>,
    pub variables: Option<InputValue<DefaultScalarValue>>,
}

impl View for SingleRequest {
    type V = RequestView;

    open spec fn view(&self) -> RequestView {
        RequestView {
            query: self.query@,
            operation_name: self.operation_name.deep_view(),
            variables: self.variables,
        }
    }
}

/// One request, or a list of them sent together.
#[derive(Debug, PartialEq)]
pub enum GraphQLBatchRequest {
    Single(SingleRequest),
    Batch(Vec<SingleRequest>),
}

/// The abstract content of a [`GraphQLBatchRequest`].
pub enum BatchView {
    Single(RequestView),
    Batch(Seq<RequestView>),
}

impl View for GraphQLBatchRequest {
    type V = BatchView;

    open spec fn view(&self) -> BatchView {
        match self {
            GraphQLBatchRequest::Single(r) => BatchView::Single(r@),
            GraphQLBatchRequest::Batch(rs) => BatchView::Batch(rs@.map_values(|r: SingleRequest| r@)),
        }
    }
}

impl BatchView {
    /// The operation names of the requests, in order.
    pub open spec fn operation_names(self) -> Seq<Option<Seq<char>>> {
        match self {
            BatchView::Single(r) => seq![r.operation_name],
            BatchView::Batch(rs) => rs.map_values(|r: RequestView| r.operation_name),
        }
    }
}

/// A decoded GraphQL request (or batch of requests) taken from an incoming
/// API Gateway event.
#[derive(Debug, PartialEq)]
pub struct GraphQLRequest(pub GraphQLBatchRequest);

impl View for GraphQLRequest {
    type V = BatchView;

    open spec fn view(&self) -> BatchView {
        self.0@
    }
}

/// The fields of a request as a GET query string or a POST body gives them,
/// before the variables are read as JSON.
#[derive(Debug, Clone, PartialEq)]
pub struct GetGraphQLRequest {
    pub query: String,
    pub operation_name: Option<String>,
    pub variables: Option<String>,
}

/// What a POST body holds: one request, a list of requests, or neither.
#[derive(Debug, PartialEq)]
pub enum PostBody {
    Single(GetGraphQLRequest),
    Batch(Vec<GetGraphQLRequest>),
    Malformed,
}

/// The parts of an API Gateway proxy event that decide the GraphQL request:
/// the HTTP method, the query string parameters with all their values (in
/// the order in which the event's map is walked) and the POST body.
#[derive(Debug, PartialEq)]
pub struct ProxyRequest {
    pub http_method: Option<String>,
    pub multi_value_query_string_parameters: Vec<(String, Vec<String>)>,
    pub body: Option<PostBody>,
}

/// The view of a `Result` whose error is an [`Error`].
pub open spec fn result_view<T: View>(r: Result<T, Error>) -> Result<T::V, ErrorView> {
    match r {
        Ok(t) => Ok(t@),
        Err(e) => Err(e@),
    }
}

/// A request made of a query, an operation name and the variables' JSON
/// text; refused where the text is not a JSON document of input values.
pub open spec fn request_from_parts(
    query: Seq<char>,
    operation_name: Option<Seq<char>>,
    variables: Option<Seq<char>>,
) -> Result<RequestView, ErrorView> {
    match variables {
        None => Ok(RequestView { query, operation_name, variables: None }),
        Some(text) => match json_input_value(text) {
            Some(v) => Ok(RequestView { query, operation_name, variables: Some(v) }),
            None => Err(ErrorView::InvalidVariablesParameter),
        },
    }
}

impl GetGraphQLRequest {
    /// The request that these fields make.
    pub open spec fn spec_request(self) -> Result<RequestView, ErrorView> {
        request_from_parts(self.query@, self.operation_name.deep_view(), self.variables.deep_view())
    }

    /// Reads the variables as JSON and makes the request.
    pub fn into_request(self) -> (r: Result<SingleRequest, Error>)
        ensures
            result_view(r) == self.spec_request(),
    {
        let GetGraphQLRequest { query, operation_name, variables } = self;
        let variables = match variables {
            Some(variables) => match parse_input_value(variables.as_str()) {
                Ok(variables) => Some(variables),
                Err(_) => return Err(Error::InvalidVariablesParameter),
            },
            None => None,
        };
        Ok(SingleRequest { query, operation_name, variables })
    }
}

/// The name of the GET parameter that holds the query.
pub open spec fn query_key() -> Seq<char> {
    seq!['q', 'u', 'e', 'r', 'y']
}

/// The name of the GET parameter that holds the operation name.
pub open spec fn operation_name_key() -> Seq<char> {
    seq!['o', 'p', 'e', 'r', 'a', 't', 'i', 'o', 'n', '_', 'n', 'a', 'm', 'e']
}

/// The name of the GET parameter that holds the variables.
pub open spec fn variables_key() -> Seq<char> {
    seq!['v', 'a', 'r', 'i', 'a', 'b', 'l', 'e', 's']
}

/// The state of reading the GET parameters one after another.
pub enum ParameterScan {
    /// All parameters so far were accepted; the last decoded value of each.
    Collected {
        query: Option<Seq<char>>,
        operation_name: Option<Seq<char>>,
        variables: Option<Seq<char>>,
    },
    /// A parameter was refused.
    Rejected(ErrorView),
    /// `operation_name` or `variables` came with no value at all, whose first
    /// value would have been read.
    EmptyValueRead,
}

/// The decoding of a parameter's only value, stored by `store`.
pub open spec fn decode_single(values: Seq<Seq<char>>, store: spec_fn(Seq<char>) -> ParameterScan) -> ParameterScan {
    match url_decoded(values[0]) {
        Some(text) => store(text),
        None => ParameterScan::Rejected(ErrorView::InvalidQueryParameterEncoding),
    }
}

/// Reading one more GET parameter.
pub open spec fn scan_step(acc: ParameterScan, key: Seq<char>, values: Seq<Seq<char>>) -> ParameterScan {
    match acc {
        ParameterScan::Collected { query, operation_name, variables } => {
            if key == query_key() {
                if values.len() == 0 {
                    ParameterScan::Rejected(ErrorView::MissingQuery)
                } else if values.len() > 1 {
                    ParameterScan::Rejected(ErrorView::MultipleQueryParameter)
                } else {
                    decode_single(
                        values,
                        |t: Seq<char>| ParameterScan::Collected { query: Some(t), operation_name, variables },
                    )
                }
            } else if key == operation_name_key() {
                if values.len() > 1 {
                    ParameterScan::Rejected(ErrorView::MultipleOperationNameParameter)
                } else if values.len() == 0 {
                    ParameterScan::EmptyValueRead
                } else {
                    decode_single(
                        values,
                        |t: Seq<char>| ParameterScan::Collected { query, operation_name: Some(t), variables },
                    )
                }
            } else if key == variables_key() {
                if values.len() > 1 {
                    ParameterScan::Rejected(ErrorView::MultipleVariablesParameter)
                } else if values.len() == 0 {
                    ParameterScan::EmptyValueRead
                } else {
                    decode_single(
                        values,
                        |t: Seq<char>| ParameterScan::Collected { query, operation_name, variables: Some(t) },
                    )
                }
            } else {
                ParameterScan::Rejected(ErrorView::ProhibitExtraField(key))
            }
        },
        _ => acc,
    }
}

/// Reading the GET parameters in order, from nothing collected.
pub open spec fn scan_parameters(params: Seq<(Seq<char>, Seq<Seq<char>>)>) -> ParameterScan
    decreases params.len(),
{
    if params.len() == 0 {
        ParameterScan::Collected { query: None, operation_name: None, variables: None }
    } else {
        scan_step(scan_parameters(params.drop_last()), params.last().0, params.last().1)
    }
}

/// What a GET request with these parameters gives; `None` where reading them
/// would index an empty list of values.
pub open spec fn get_outcome(params: Seq<(Seq<char>, Seq<Seq<char>>)>) -> Option<Result<BatchView, ErrorView>> {
    match scan_parameters(params) {
        ParameterScan::Collected { query, operation_name, variables } => match query {
            None => Some(Err(ErrorView::MissingQuery)),
            Some(q) => match request_from_parts(q, operation_name, variables) {
                Ok(r) => Some(Ok(BatchView::Single(r))),
                Err(e) => Some(Err(e)),
            },
        },
        ParameterScan::Rejected(e) => Some(Err(e)),
        ParameterScan::EmptyValueRead => None,
    }
}

/// The requests that a list of POST entries makes, or the error of the
/// first entry that makes none.
pub open spec fn batch_outcome(entries: Seq<GetGraphQLRequest>) -> Result<Seq<RequestView>, ErrorView>
    decreases entries.len(),
{
    if entries.len() == 0 {
        Ok(seq![])
    } else {
        match batch_outcome(entries.drop_last()) {
            Ok(rs) => match entries.last().spec_request() {
                Ok(r) => Ok(rs.push(r)),
                Err(e) => Err(e),
            },
            Err(e) => Err(e),
        }
    }
}

/// What a POST request with this body gives.
pub open spec fn post_outcome(body: Option<PostBody>) -> Result<BatchView, ErrorView> {
    match body {
        None => Err(ErrorView::MissingPostBody),
        Some(PostBody::Single(entry)) => match entry.spec_request() {
            Ok(r) => Ok(BatchView::Single(r)),
            Err(e) => Err(e),
        },
        Some(PostBody::Batch(entries)) => match batch_outcome(entries@) {
            Ok(rs) => Ok(BatchView::Batch(rs)),
            Err(e) => Err(e),
        },
        Some(PostBody::Malformed) => Err(ErrorView::InvalidBody),
    }
}

/// The text "GET".
pub open spec fn get_method() -> Seq<char> {
    seq!['G', 'E', 'T']
}

/// The text "POST".
pub open spec fn post_method() -> Seq<char> {
    seq!['P', 'O', 'S', 'T']
}

/// The method that a request names; an absent one counts as empty.
pub open spec fn requested_method(req: ProxyRequest) -> Seq<char> {
    match req.http_method {
        Some(m) => m@,
        None => seq![],
    }
}

/// What an incoming request gives; `None` where reading its GET parameters
/// would index an empty list of values.
pub open spec fn request_outcome(req: ProxyRequest) -> Option<Result<BatchView, ErrorView>> {
    let method = requested_method(req);
    if !is_method_token(method) {
        Some(Err(ErrorView::UnknownMethod(method)))
    } else if method == get_method() {
        get_outcome(req.multi_value_query_string_parameters.deep_view())
    } else if method == post_method() {
        Some(post_outcome(req.body))
    } else {
        Some(Err(ErrorView::InvalidMethod(method)))
    }
}

/// The outcome of reading the GET parameters: the last decoded value of each
/// accepted parameter, the refusal, or the reading of a missing first value.
pub enum QueryParameters {
    Collected { query: Option<String>, operation_name: Option<String>, variables: Option<String> },
    Rejected(Error),
    EmptyValueRead,
}

impl View for QueryParameters {
    type V = ParameterScan;

    open spec fn view(&self) -> ParameterScan {
        match self {
            QueryParameters::Collected { query, operation_name, variables } => ParameterScan::Collected {
                query: query.deep_view(),
                operation_name: operation_name.deep_view(),
                variables: variables.deep_view(),
            },
            QueryParameters::Rejected(e) => ParameterScan::Rejected(e@),
            QueryParameters::EmptyValueRead => ParameterScan::EmptyValueRead,
        }
    }
}

/// Once a parameter is refused (or a missing value read), the later ones do
/// not change the outcome.
pub proof fn lemma_scan_settled(params: Seq<(Seq<char>, Seq<Seq<char>>)>, i: int)
    requires
        0 <= i <= params.len(),
        !(scan_parameters(params.take(i)) is Collected),
    ensures
        scan_parameters(params) == scan_parameters(params.take(i)),
    decreases params.len() - i,
{
    if i < params.len() {
        assert(params.take(i + 1).drop_last() == params.take(i));
        lemma_scan_settled(params, i + 1);
    } else {
        assert(params.take(i) == params);
    }
}

/// Once an entry of a batch is refused, the later entries do not change the
/// outcome.
pub proof fn lemma_batch_settled(entries: Seq<GetGraphQLRequest>, i: int)
    requires
        0 <= i <= entries.len(),
        batch_outcome(entries.take(i)) is Err,
    ensures
        batch_outcome(entries) == batch_outcome(entries.take(i)),
    decreases entries.len() - i,
{
    if i < entries.len() {
        assert(entries.take(i + 1).drop_last() == entries.take(i));
        lemma_batch_settled(entries, i + 1);
    } else {
        assert(entries.take(i) == entries);
    }
}

/// Reads the GET parameters in order, as a GET request does.
pub fn scan_query_parameters(params: &Vec<(String, Vec<String>)>) -> (r: QueryParameters)
    ensures
        r@ == scan_parameters(params.deep_view()),
{
    let query_name = "query".to_owned();
    let operation_name_name = "operation_name".to_owned();
    let variables_name = "variables".to_owned();
    proof {
        reveal_strlit("query");
        reveal_strlit("operation_name");
        reveal_strlit("variables");
    }
    let ghost all = params.deep_view();
    let mut query: Option<String> = None;
    let mut operation_name: Option<String> = None;
    let mut variables: Option<String> = None;
    let mut i: usize = 0;
    while i < params.len()
        invariant
            0 <= i <= params.len(),
            all == params.deep_view(),
            query_name@ == query_key(),
            operation_name_name@ == operation_name_key(),
            variables_name@ == variables_key(),
            scan_parameters(all.take(i as int)) == (ParameterScan::Collected {
                query: query.deep_view(),
                operation_name: operation_name.deep_view(),
                variables: variables.deep_view(),
            }),
        decreases params.len() - i,
    {
        let key = &params[i].0;
        let values = &params[i].1;
        proof {
            assert(all.take(i + 1).drop_last() == all.take(i as int));
            assert(all[i as int].0 == key@);
            assert(all[i as int].1 == values.deep_view());
        }
        let ghost next = all.take(i + 1);
        if *key == query_name {
            if values.len() == 0 {
                proof { lemma_scan_settled(all, i + 1); }
                return QueryParameters::Rejected(Error::MissingQuery);
            } else if values.len() > 1 {
                proof { lemma_scan_settled(all, i + 1); }
                return QueryParameters::Rejected(Error::MultipleQueryParameter);
            } else {
                match url_decode(values[0].as_str()) {
                    Ok(decoded) => {
                        query = Some(decoded);
                    },
                    Err(e) => {
                        proof { lemma_scan_settled(all, i + 1); }
                        return QueryParameters::Rejected(e);
                    },
                }
            }
        } else if *key == operation_name_name {
            if values.len() > 1 {
                proof { lemma_scan_settled(all, i + 1); }
                return QueryParameters::Rejected(Error::MultipleOperationNameParameter);
            } else if values.len() == 0 {
                proof { lemma_scan_settled(all, i + 1); }
                return QueryParameters::EmptyValueRead;
            } else {
                match url_decode(values[0].as_str()) {
                    Ok(decoded) => {
                        operation_name = Some(decoded);
                    },
                    Err(e) => {
                        proof { lemma_scan_settled(all, i + 1); }
                        return QueryParameters::Rejected(e);
                    },
                }
            }
        } else if *key == variables_name {
            if values.len() > 1 {
                proof { lemma_scan_settled(all, i + 1); }
                return QueryParameters::Rejected(Error::MultipleVariablesParameter);
            } else if values.len() == 0 {
                proof { lemma_scan_settled(all, i + 1); }
                return QueryParameters::EmptyValueRead;
            } else {
                match url_decode(values[0].as_str()) {
                    Ok(decoded) => {
                        variables = Some(decoded);
                    },
                    Err(e) => {
                        proof { lemma_scan_settled(all, i + 1); }
                        return QueryParameters::Rejected(e);
                    },
                }
            }
        } else {
            let extra = key.clone();
            proof { lemma_scan_settled(all, i + 1); }
            return QueryParameters::Rejected(Error::ProhibitExtraField(extra));
        }
        i = i + 1;
    }
    proof {
        assert(all.take(i as int) == all);
    }
    QueryParameters::Collected { query, operation_name, variables }
}

impl GraphQLRequest {
    /// Decodes a GET request from its query string parameters.
    pub fn from_get(params: &Vec<(String, Vec<String>)>) -> (r: Result<GraphQLRequest, Error>)
        requires
            get_outcome(params.deep_view()) is Some,
        ensures
            Some(result_view(r)) == get_outcome(params.deep_view()),
    {
        match scan_query_parameters(params) {
            QueryParameters::Collected { query, operation_name, variables } => match query {
                None => Err(Error::MissingQuery),
                Some(query) => {
                    let req = GetGraphQLRequest { variables, operation_name, query };
                    let single = req.into_request()?;
                    Ok(GraphQLRequest(GraphQLBatchRequest::Single(single)))
                },
            },
            QueryParameters::Rejected(e) => Err(e),
            QueryParameters::EmptyValueRead => {
                proof { assert(false); }
                Err(Error::MissingQuery)
            },
        }
    }

    /// Decodes a POST request from its body: one request, or a list of
    /// requests of which the first refused one decides the error.
    pub fn from_post(body: Option<PostBody>) -> (r: Result<GraphQLRequest, Error>)
        ensures
            result_view(r) == post_outcome(body),
    {
        match body {
            Some(PostBody::Single(entry)) => {
                let single = entry.into_request()?;
                Ok(GraphQLRequest(GraphQLBatchRequest::Single(single)))
            },
            Some(PostBody::Batch(entries)) => {
                let ghost all = entries@;
                let ghost whole = entries;
                let mut requests: Vec<SingleRequest> = Vec::with_capacity(entries.len());
                proof {
                    assert(all.take(0) =~= Seq::<GetGraphQLRequest>::empty());
                    assert(requests@.map_values(|r: SingleRequest| r@) =~= Seq::<RequestView>::empty());
                }
                for entry in it: entries.into_iter()
                    invariant
                        it.seq() == all,
                        all == whole@,
                        body == Some(PostBody::Batch(whole)),
                        batch_outcome(all.take(it.index() as int)) == Ok::<Seq<RequestView>, ErrorView>(requests@.map_values(|r: SingleRequest| r@)),
                {
                    proof {
                        assert(all.take(it.index() + 1).drop_last() == all.take(it.index() as int));
                        assert(entry == all[it.index() as int]);
                    }
                    match entry.into_request() {
                        Ok(request) => {
                            let ghost prev = requests@;
                            let ghost added = request@;
                            requests.push(request);
                            proof {
                                assert(requests@.map_values(|r: SingleRequest| r@)
                                    =~= prev.map_values(|r: SingleRequest| r@).push(added));
                            }
                        },
                        Err(err) => {
                            proof {
                                let next = all.take(it.index() + 1);
                                assert(next.last() == all[it.index() as int]);
                                assert(batch_outcome(next) == Err::<Seq<RequestView>, ErrorView>(err@));
                                lemma_batch_settled(all, it.index() + 1);
                            }
                            return Err(err);
                        },
                    }
                }
                proof { assert(all.take(all.len() as int) == all); }
                Ok(GraphQLRequest(GraphQLBatchRequest::Batch(requests)))
            },
            Some(PostBody::Malformed) => Err(Error::InvalidBody),
            None => Err(Error::MissingPostBody),
        }
    }
}

/// Parses the method that a request names; a text that is no method name is
/// refused.
pub fn method(raw_method: &String) -> (r: Result<Method, Error>)
    ensures
        r is Ok <==> is_method_token(raw_method@),
        r matches Ok(m) ==> method_text(m) == raw_method@,
        r matches Err(e) ==> e@ == ErrorView::UnknownMethod(raw_method@),
{
    match parse_method(raw_method.as_str()) {
        Ok(method) => Ok(method),
        Err(_) => Err(Error::UnknownMethod(raw_method.clone())),
    }
}

impl GraphQLRequest {
    /// Decodes an incoming API Gateway request: GET requests from their query
    /// string parameters, POST requests from their body; other methods are
    /// refused.
    pub fn try_from(req: ProxyRequest) -> (r: Result<GraphQLRequest, Error>)
        requires
            request_outcome(req) is Some,
        ensures
            Some(result_view(r)) == request_outcome(req),
    {
        let ghost whole = req;
        let ProxyRequest { http_method, multi_value_query_string_parameters, body } = req;
        let raw_method = match http_method {
            Some(m) => m,
            None => String::new(),
        };
        let get_name = "GET".to_owned();
        let post_name = "POST".to_owned();
        proof {
            reveal_strlit("GET");
            reveal_strlit("POST");
            assert(raw_method@ == requested_method(whole));
            assert(multi_value_query_string_parameters == whole.multi_value_query_string_parameters);
            assert(body == whole.body);
            assert(get_name@ =~= get_method());
            assert(post_name@ =~= post_method());
        }
        let method = method(&raw_method)?;
        let method_name = method_str(&method).to_owned();
        if method_name == get_name {
            GraphQLRequest::from_get(&multi_value_query_string_parameters)
        } else if method_name == post_name {
            GraphQLRequest::from_post(body)
        } else {
            Err(Error::InvalidMethod(method))
        }
    }

    /// Whether decoding the request would read the first value of an
    /// `operation_name` or `variables` parameter that came with none, which
    /// [`GraphQLRequest::try_from`] does not accept.
    pub fn reads_empty_value(req: &ProxyRequest) -> (r: bool)
        ensures
            r == (request_outcome(*req) is None),
    {
        let get_name = "GET".to_owned();
        proof {
            reveal_strlit("GET");
            assert(get_name@ =~= get_method());
            assert(is_method_token(get_method()));
        }
        let is_get = match &req.http_method {
            Some(m) => *m == get_name,
            None => false,
        };
        if is_get {
            match scan_query_parameters(&req.multi_value_query_string_parameters) {
                QueryParameters::EmptyValueRead => true,
                _ => false,
            }
        } else {
            false
        }
    }

    /// The operation names of the requests, in order; a single request has
    /// one.
    pub fn operation_names(&self) -> (r: Vec<Option<&str>>)
        ensures
            r.deep_view() == self@.operation_names(),
    {
        self.0.operation_names()
    }
}

impl GraphQLBatchRequest {
    /// The operation names of the requests, in order; a single request has
    /// one.
    pub fn operation_names(&self) -> (r: Vec<Option<&str>>)
        ensures
            r.deep_view() == self@.operation_names(),
    {
        match self {
            GraphQLBatchRequest::Single(req) => {
                let mut names: Vec<Option<&str>> = Vec::new();
                names.push(operation_name_of(req));
                proof {
                    assert(names.deep_view() =~= self@.operation_names());
                }
                names
            },
            GraphQLBatchRequest::Batch(reqs) => {
                let mut names: Vec<Option<&str>> = Vec::with_capacity(reqs.len());
                let mut i: usize = 0;
                while i < reqs.len()
                    invariant
                        0 <= i <= reqs.len(),
                        names@.len() == i,
                        forall|j: int| 0 <= j < i ==> #[trigger] names@[j].deep_view() == reqs@[j]@.operation_name,
                    decreases reqs.len() - i,
                {
                    names.push(operation_name_of(&reqs[i]));
                    i = i + 1;
                }
                proof {
                    assert(names.deep_view() =~= self@.operation_names());
                }
                names
            },
        }
    }
}

/// The operation name of a request, borrowed.
fn operation_name_of(req: &SingleRequest) -> (r: Option<&str>)
    ensures
        r.deep_view() == req@.operation_name,
{
    match &req.operation_name {
        Some(name) => Some(name.as_str()),
        None => None,
    }
}

} // verus!
