//! Why a request cannot be turned into a GraphQL request.

use http::Method;
use vstd::prelude::*;

use crate::external::method_text;

verus! {

/// The ways in which an incoming request is refused.
#[derive(Debug, Eq, PartialEq)]
pub enum Error {
    /// The HTTP method is not a valid method name.
    UnknownMethod(String),
    /// The HTTP method is valid but neither GET nor POST.
    InvalidMethod(Method),
    /// A GET request carries no `query` parameter.
    MissingQuery,
    /// A POST request carries no body.
    MissingPostBody,
    /// A POST body is neither one request nor a list of requests.
    InvalidBody,
    /// A GET request carries a parameter other than `query`,
    /// `operation_name` and `variables`.
    ProhibitExtraField(String),
    /// `query` is given more than once.
    MultipleQueryParameter,
    /// `operation_name` is given more than once.
    MultipleOperationNameParameter,
    /// `variables` is given more than once.
    MultipleVariablesParameter,
    /// `variables` is not a JSON document of GraphQL input values.
    InvalidVariablesParameter,
    /// A parameter's percent-decoding is not valid UTF-8.
    InvalidQueryParameterEncoding,
}

/// An [`Error`] with its texts taken as character sequences, and the method
/// held by `InvalidMethod` taken as its text.
pub enum ErrorView {
    UnknownMethod(Seq<char>),
    InvalidMethod(Seq<char>),
    MissingQuery,
    MissingPostBody,
    InvalidBody,
    ProhibitExtraField(Seq<char>),
    MultipleQueryParameter,
    MultipleOperationNameParameter,
    MultipleVariablesParameter,
    InvalidVariablesParameter,
    InvalidQueryParameterEncoding,
}

impl View for Error {
    type V = ErrorView;

    open spec fn view(&self) -> ErrorView {
        match self {
            Error::UnknownMethod(m) => ErrorView::UnknownMethod(m@),
            Error::InvalidMethod(m) => ErrorView::InvalidMethod(method_text(*m)),
            Error::MissingQuery => ErrorView::MissingQuery,
            Error::MissingPostBody => ErrorView::MissingPostBody,
            Error::InvalidBody => ErrorView::InvalidBody,
            Error::ProhibitExtraField(k) => ErrorView::ProhibitExtraField(k@),
            Error::MultipleQueryParameter => ErrorView::MultipleQueryParameter,
            Error::MultipleOperationNameParameter => ErrorView::MultipleOperationNameParameter,
            Error::MultipleVariablesParameter => ErrorView::MultipleVariablesParameter,
            Error::InvalidVariablesParameter => ErrorView::InvalidVariablesParameter,
            Error::InvalidQueryParameterEncoding => ErrorView::InvalidQueryParameterEncoding,
        }
    }
}

} // verus!
