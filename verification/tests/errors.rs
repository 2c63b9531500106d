use binchotan::connection::{Method, Request, RequestParams, ResponseError};
use binchotan::error::{AppError, OAuthFailure};

fn request(method: Method, id: &str) -> Request {
    Request {
        protocol_version: "2.0".to_string(),
        method,
        params: RequestParams::Generic(vec![]),
        id: id.to_string(),
    }
}

#[test]
fn every_failure_has_its_wire_code() {
    let d = || "d".to_string();
    let cases: Vec<(AppError, isize)> = vec![
        (AppError::Io(d()), -32000),
        (AppError::ApiResponseParse(d()), -32000),
        (AppError::ApiResponseNotFound(d(), d()), -32000),
        (AppError::ApiResponseSerialize(d()), -32000),
        (AppError::ApiRequest(d()), -32000),
        (AppError::ApiResponseStatus(500, d()), -32001),
        (AppError::ApiExpiredToken, -32000),
        (AppError::OAuth(OAuthFailure::InvalidState), -32000),
        (AppError::OAuthUrlParse(d()), -32000),
        (AppError::SocketPayloadParse(d()), -32700),
        (AppError::RpcVersion(d()), -32600),
        (AppError::RpcParamsParse(d()), -32700),
        (AppError::RpcParamsMismatch(request(Method::Status, "1")), -32602),
        (AppError::RpcUnknownAccount(d()), -32099),
        (AppError::RpcTooLarge, -32603),
        (AppError::Filter(d()), -32002),
        (AppError::CacheParse(d()), -32603),
        (AppError::ServerLaunch(d()), -32603),
        (AppError::Config(d()), -32603),
        (AppError::Other(d()), -32099),
    ];
    for (err, code) in cases {
        assert_eq!(err.code(), code, "{:?}", err);
        let seen = ResponseError::from(err);
        assert_eq!(seen.code, code);
        assert!(seen.data.is_none());
    }
}

#[test]
fn every_failure_has_its_message() {
    let cases: Vec<(AppError, &str)> = vec![
        (AppError::Io("disk full".to_string()), "i/o failure: disk full"),
        (AppError::ApiResponseParse("eof".to_string()), "unreadable api response: eof"),
        (
            AppError::ApiResponseNotFound("data".to_string(), "{}".to_string()),
            "api response lacks data: {}",
        ),
        (AppError::ApiResponseSerialize("x".to_string()), "unwritable api request: x"),
        (AppError::ApiRequest("refused".to_string()), "api request failed: refused"),
        (
            AppError::ApiResponseStatus(404, "gone".to_string()),
            "api responded with status 404: gone",
        ),
        (AppError::ApiResponseStatus(0, String::new()), "api responded with status 0: "),
        (AppError::ApiResponseStatus(65535, "x".to_string()), "api responded with status 65535: x"),
        (AppError::ApiExpiredToken, "the access token has expired"),
        (
            AppError::OAuth(OAuthFailure::MissingCode),
            "authorization failed: no authorization code was returned",
        ),
        (AppError::OAuth(OAuthFailure::MissingState), "authorization failed: no state was returned"),
        (AppError::OAuth(OAuthFailure::InvalidState), "authorization failed: invalid csrf state"),
        (
            AppError::OAuth(OAuthFailure::Exchange("denied".to_string())),
            "authorization failed: failed to exchange authorization code for access token: denied",
        ),
        (
            AppError::OAuth(OAuthFailure::Unexpected),
            "authorization failed: unexpected event in the authorization flow",
        ),
        (AppError::OAuthUrlParse("bad".to_string()), "unreadable callback address: bad"),
        (AppError::SocketPayloadParse("bad".to_string()), "unreadable request: bad"),
        (AppError::RpcVersion("3".to_string()), "unsupported protocol version: 3"),
        (AppError::RpcParamsParse("bad".to_string()), "unreadable parameters: bad"),
        (
            AppError::RpcParamsMismatch(request(Method::HomeTimeline, "r1")),
            "parameters do not match method home-timeline in request r1",
        ),
        (AppError::RpcUnknownAccount("9".to_string()), "unknown account: 9"),
        (AppError::RpcTooLarge, "the request is too large"),
        (AppError::Filter("boom".to_string()), "filter failed: boom"),
        (AppError::CacheParse("bad".to_string()), "unreadable credential store: bad"),
        (AppError::ServerLaunch("busy".to_string()), "the callback listener did not start: busy"),
        (AppError::Config("missing".to_string()), "unreadable configuration: missing"),
        (AppError::Other("odd".to_string()), "odd"),
    ];
    for (err, message) in cases {
        assert_eq!(err.message(), message);
        assert_eq!(ResponseError::from(err).message, message);
    }
}

#[test]
fn method_names_are_the_wire_names() {
    assert_eq!(Method::Plain.name(), "plain-call");
    assert_eq!(Method::HomeTimeline.name(), "home-timeline");
    assert_eq!(Method::Status.name(), "status");
    assert_eq!(Method::AccountList.name(), "account-list");
    for m in [Method::Plain, Method::HomeTimeline, Method::Status, Method::AccountList] {
        assert_eq!(Method::parse(m.name()), Some(m));
    }
    assert_eq!(Method::parse("Status"), None);
    assert_eq!(Method::parse(""), None);
}
