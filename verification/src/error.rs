//! The closed set of failures and their wire codes.

use vstd::prelude::*;
use vstd::string::*;
use crate::connection::Request;
use crate::text::{decimal, decimal_text, prefixed};

verus! {

/// Malformed inbound bytes or parameters.
pub const CODE_PARSE: isize = -32700;

/// A protocol version other than the supported one.
pub const CODE_VERSION: isize = -32600;

/// Parameters of another shape than the method requires.
pub const CODE_PARAMS: isize = -32602;

/// An internal or unexpected failure.
pub const CODE_INTERNAL: isize = -32603;

/// A failure of the remote API or of I/O.
pub const CODE_UPSTREAM: isize = -32000;

/// A status other than success from the remote API.
pub const CODE_UPSTREAM_STATUS: isize = -32001;

/// A failure while a filter ran.
pub const CODE_FILTER: isize = -32002;

/// A failure of no other category.
pub const CODE_OTHER: isize = -32099;

/// Why an interactive authorization did not yield tokens.
#[derive(Debug)]
pub enum OAuthFailure {
    /// The callback carried no `code`.
    MissingCode,
    /// The callback carried no `state`.
    MissingState,
    /// The callback's `state` is not the one that was sent out.
    InvalidState,
    /// The token endpoint refused the exchange.
    Exchange(String),
    /// An event arrived that the flow does not expect in its state.
    Unexpected,
    /// The PKCE verifier is not 43 to 128 bytes long.
    Verifier,
}

impl OAuthFailure {
    /// The message of the failure.
    pub open spec fn message_text(self) -> Seq<char> {
        match self {
            OAuthFailure::MissingCode => "no authorization code was returned"@,
            OAuthFailure::MissingState => "no state was returned"@,
            OAuthFailure::InvalidState => "invalid csrf state"@,
            OAuthFailure::Exchange(detail) =>
                "failed to exchange authorization code for access token: "@ + detail@,
            OAuthFailure::Unexpected => "unexpected event in the authorization flow"@,
            OAuthFailure::Verifier => "the pkce verifier is not 43 to 128 bytes long"@,
        }
    }

    /// The message of the failure.
    pub fn message(&self) -> (r: String)
        ensures
            r@ == self.message_text(),
    {
        match self {
            OAuthFailure::MissingCode => String::from_str("no authorization code was returned"),
            OAuthFailure::MissingState => String::from_str("no state was returned"),
            OAuthFailure::InvalidState => String::from_str("invalid csrf state"),
            OAuthFailure::Exchange(detail) => prefixed(
                "failed to exchange authorization code for access token: ",
                detail.as_str(),
            ),
            OAuthFailure::Unexpected => String::from_str(
                "unexpected event in the authorization flow",
            ),
            OAuthFailure::Verifier => String::from_str(
                "the pkce verifier is not 43 to 128 bytes long",
            ),
        }
    }
}

/// Every failure that the library reports.
#[derive(Debug)]
pub enum AppError {
    /// A file-system or network failure, with its detail.
    Io(String),
    /// The remote API answered with a body that could not be read.
    ApiResponseParse(String),
    /// The remote API's answer lacks a field: the field, then the body.
    ApiResponseNotFound(String, String),
    /// A body for the remote API could not be written.
    ApiResponseSerialize(String),
    /// The request to the remote API failed.
    ApiRequest(String),
    /// The remote API answered with a status other than success.
    ApiResponseStatus(u16, String),
    /// The remote API refused an expired token.
    ApiExpiredToken,
    /// The interactive authorization failed.
    OAuth(OAuthFailure),
    /// The callback's address could not be read as a URL.
    OAuthUrlParse(String),
    /// The inbound bytes are not a request.
    SocketPayloadParse(String),
    /// The request names another protocol version: the one it names.
    RpcVersion(String),
    /// The request's parameters are of no known shape.
    RpcParamsParse(String),
    /// The request's parameters are not of the shape its method requires.
    RpcParamsMismatch(Request),
    /// The request names an account that has no session: the identifier.
    RpcUnknownAccount(String),
    /// The request is too large.
    RpcTooLarge,
    /// A filter failed while it ran.
    Filter(String),
    /// The credential store's content is not a store.
    CacheParse(String),
    /// The callback listener could not be started.
    ServerLaunch(String),
    /// The configuration could not be read.
    Config(String),
    /// Anything else.
    Other(String),
}

impl AppError {
    /// The wire code of the failure. The mapping is total.
    pub open spec fn code_of(self) -> int {
        match self {
            AppError::Io(_) => CODE_UPSTREAM as int,
            AppError::ApiResponseParse(_) => CODE_UPSTREAM as int,
            AppError::ApiResponseNotFound(_, _) => CODE_UPSTREAM as int,
            AppError::ApiResponseSerialize(_) => CODE_UPSTREAM as int,
            AppError::ApiRequest(_) => CODE_UPSTREAM as int,
            AppError::ApiResponseStatus(_, _) => CODE_UPSTREAM_STATUS as int,
            AppError::ApiExpiredToken => CODE_UPSTREAM as int,
            AppError::OAuth(_) => CODE_UPSTREAM as int,
            AppError::OAuthUrlParse(_) => CODE_UPSTREAM as int,
            AppError::SocketPayloadParse(_) => CODE_PARSE as int,
            AppError::RpcVersion(_) => CODE_VERSION as int,
            AppError::RpcParamsParse(_) => CODE_PARSE as int,
            AppError::RpcParamsMismatch(_) => CODE_PARAMS as int,
            AppError::RpcUnknownAccount(_) => CODE_OTHER as int,
            AppError::RpcTooLarge => CODE_INTERNAL as int,
            AppError::Filter(_) => CODE_FILTER as int,
            AppError::CacheParse(_) => CODE_INTERNAL as int,
            AppError::ServerLaunch(_) => CODE_INTERNAL as int,
            AppError::Config(_) => CODE_INTERNAL as int,
            AppError::Other(_) => CODE_OTHER as int,
        }
    }

    /// The wire code of the failure.
    pub fn code(&self) -> (r: isize)
        ensures
            r == self.code_of(),
    {
        match self {
            AppError::Io(_) => CODE_UPSTREAM,
            AppError::ApiResponseParse(_) => CODE_UPSTREAM,
            AppError::ApiResponseNotFound(_, _) => CODE_UPSTREAM,
            AppError::ApiResponseSerialize(_) => CODE_UPSTREAM,
            AppError::ApiRequest(_) => CODE_UPSTREAM,
            AppError::ApiResponseStatus(_, _) => CODE_UPSTREAM_STATUS,
            AppError::ApiExpiredToken => CODE_UPSTREAM,
            AppError::OAuth(_) => CODE_UPSTREAM,
            AppError::OAuthUrlParse(_) => CODE_UPSTREAM,
            AppError::SocketPayloadParse(_) => CODE_PARSE,
            AppError::RpcVersion(_) => CODE_VERSION,
            AppError::RpcParamsParse(_) => CODE_PARSE,
            AppError::RpcParamsMismatch(_) => CODE_PARAMS,
            AppError::RpcUnknownAccount(_) => CODE_OTHER,
            AppError::RpcTooLarge => CODE_INTERNAL,
            AppError::Filter(_) => CODE_FILTER,
            AppError::CacheParse(_) => CODE_INTERNAL,
            AppError::ServerLaunch(_) => CODE_INTERNAL,
            AppError::Config(_) => CODE_INTERNAL,
            AppError::Other(_) => CODE_OTHER,
        }
    }

    /// The message of the failure: what kind it is, then its detail.
    pub open spec fn message_text(self) -> Seq<char> {
        match self {
            AppError::Io(detail) => "i/o failure: "@ + detail@,
            AppError::ApiResponseParse(detail) => "unreadable api response: "@ + detail@,
            AppError::ApiResponseNotFound(field, body) => "api response lacks "@ + field@ + ": "@
                + body@,
            AppError::ApiResponseSerialize(detail) => "unwritable api request: "@ + detail@,
            AppError::ApiRequest(detail) => "api request failed: "@ + detail@,
            AppError::ApiResponseStatus(status, body) => "api responded with status "@
                + decimal_text(status as nat) + ": "@ + body@,
            AppError::ApiExpiredToken => "the access token has expired"@,
            AppError::OAuth(failure) => "authorization failed: "@ + failure.message_text(),
            AppError::OAuthUrlParse(detail) => "unreadable callback address: "@ + detail@,
            AppError::SocketPayloadParse(detail) => "unreadable request: "@ + detail@,
            AppError::RpcVersion(version) => "unsupported protocol version: "@ + version@,
            AppError::RpcParamsParse(detail) => "unreadable parameters: "@ + detail@,
            AppError::RpcParamsMismatch(request) => "parameters do not match method "@
                + request.method.name_text() + " in request "@ + request.id@,
            AppError::RpcUnknownAccount(account_id) => "unknown account: "@ + account_id@,
            AppError::RpcTooLarge => "the request is too large"@,
            AppError::Filter(detail) => "filter failed: "@ + detail@,
            AppError::CacheParse(detail) => "unreadable credential store: "@ + detail@,
            AppError::ServerLaunch(detail) => "the callback listener did not start: "@ + detail@,
            AppError::Config(detail) => "unreadable configuration: "@ + detail@,
            AppError::Other(detail) => detail@,
        }
    }

    /// The message of the failure.
    pub fn message(&self) -> (r: String)
        ensures
            r@ == self.message_text(),
    {
        match self {
            AppError::Io(detail) => prefixed("i/o failure: ", detail.as_str()),
            AppError::ApiResponseParse(detail) => prefixed(
                "unreadable api response: ",
                detail.as_str(),
            ),
            AppError::ApiResponseNotFound(field, body) => {
                let mut out = prefixed("api response lacks ", field.as_str());
                out.append(": ");
                out.append(body.as_str());
                out
            },
            AppError::ApiResponseSerialize(detail) => prefixed(
                "unwritable api request: ",
                detail.as_str(),
            ),
            AppError::ApiRequest(detail) => prefixed("api request failed: ", detail.as_str()),
            AppError::ApiResponseStatus(status, body) => {
                let digits = decimal(*status as u64);
                let mut out = prefixed("api responded with status ", digits.as_str());
                out.append(": ");
                out.append(body.as_str());
                out
            },
            AppError::ApiExpiredToken => String::from_str("the access token has expired"),
            AppError::OAuth(failure) => {
                let inner = failure.message();
                prefixed("authorization failed: ", inner.as_str())
            },
            AppError::OAuthUrlParse(detail) => prefixed(
                "unreadable callback address: ",
                detail.as_str(),
            ),
            AppError::SocketPayloadParse(detail) => prefixed(
                "unreadable request: ",
                detail.as_str(),
            ),
            AppError::RpcVersion(version) => prefixed(
                "unsupported protocol version: ",
                version.as_str(),
            ),
            AppError::RpcParamsParse(detail) => prefixed(
                "unreadable parameters: ",
                detail.as_str(),
            ),
            AppError::RpcParamsMismatch(request) => {
                let mut out = prefixed("parameters do not match method ", request.method.name());
                out.append(" in request ");
                out.append(request.id.as_str());
                out
            },
            AppError::RpcUnknownAccount(account_id) => prefixed(
                "unknown account: ",
                account_id.as_str(),
            ),
            AppError::RpcTooLarge => String::from_str("the request is too large"),
            AppError::Filter(detail) => prefixed("filter failed: ", detail.as_str()),
            AppError::CacheParse(detail) => prefixed(
                "unreadable credential store: ",
                detail.as_str(),
            ),
            AppError::ServerLaunch(detail) => prefixed(
                "the callback listener did not start: ",
                detail.as_str(),
            ),
            AppError::Config(detail) => prefixed("unreadable configuration: ", detail.as_str()),
            AppError::Other(detail) => detail.clone(),
        }
    }
}

} // verus!
