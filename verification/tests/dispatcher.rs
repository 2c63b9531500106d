use binchotan::accounts::{AccountMap, Credential};
use binchotan::connection::{
    Dispatch, Handler, Method, Request, RequestParams, Response, ResponseContent, ResponseError,
    ResponsePlainMeta, PROTOCOL_VERSION,
};
use binchotan::error::AppError;
use binchotan::json::Json;
use binchotan::methods::HttpMethod;
use binchotan::VERSION;

fn handler_with(ids: &[&str]) -> Handler {
    let mut clients = AccountMap::new();
    for id in ids {
        clients = clients.insert(
            id.to_string(),
            Credential::new(format!("access-{}", id), format!("refresh-{}", id)),
        );
    }
    Handler { clients, filter_path: "filters".to_string(), scopes: vec!["tweet.read".to_string()] }
}

fn reply(d: Dispatch) -> Response {
    match d {
        Dispatch::Reply(r) => r,
        other => panic!("expected a reply, got {:?}", other),
    }
}

fn error_of(r: &Response) -> &ResponseError {
    match &r.content {
        ResponseContent::Error(e) => e,
        other => panic!("expected an error, got {:?}", other),
    }
}

#[test]
fn status_request_end_to_end() {
    let handler = handler_with(&[]);
    let req =
        Request::parse(r#"{"protocol_version":"2.0","method":"status","params":{},"id":"1"}"#)
            .unwrap();
    let r = reply(handler.handle(req));
    assert_eq!(
        r.render(),
        format!(r#"{{"protocol_version":"2.0","id":"1","result":{{"version":"{}"}}}}"#, VERSION)
    );
}

#[test]
fn status_without_params_member_is_answered() {
    let handler = handler_with(&[]);
    let req = Request::parse(r#"{"protocol_version":"2.0","method":"status","id":"a"}"#).unwrap();
    let r = reply(handler.handle(req));
    assert_eq!(r.id, "a");
    assert_eq!(r.protocol_version, PROTOCOL_VERSION);
    match r.content {
        ResponseContent::Status { version } => assert_eq!(version, VERSION),
        other => panic!("unexpected {:?}", other),
    }
}

#[test]
fn other_protocol_version_is_refused_with_its_code_and_the_id() {
    let handler = handler_with(&["42"]);
    let req =
        Request::parse(r#"{"protocol_version":"1.0","method":"status","params":{},"id":"7"}"#)
            .unwrap();
    let r = reply(handler.handle(req));
    assert_eq!(r.id, "7");
    let e = error_of(&r);
    assert_eq!(e.code, -32600);
    assert_eq!(e.message, "unsupported protocol version: 1.0");
    assert!(e.data.is_none());
    assert_eq!(
        r.render(),
        r#"{"protocol_version":"2.0","id":"7","error":{"code":-32600,"message":"unsupported protocol version: 1.0","data":null}}"#
    );
}

#[test]
fn version_is_checked_before_the_method_is_routed() {
    let handler = handler_with(&[]);
    let req = Request {
        protocol_version: "2".to_string(),
        method: Method::HomeTimeline,
        params: RequestParams::MapWithId { account_id: "nobody".to_string(), api_params: vec![] },
        id: "x".to_string(),
    };
    let r = reply(handler.handle(req));
    assert_eq!(error_of(&r).code, -32600);
}

#[test]
fn validate_accepts_only_the_supported_version() {
    let mut req = Request {
        protocol_version: "2.0".to_string(),
        method: Method::Status,
        params: RequestParams::Generic(vec![]),
        id: "1".to_string(),
    };
    assert!(req.validate().is_ok());
    req.protocol_version = "2.00".to_string();
    match req.validate() {
        Err(AppError::RpcVersion(v)) => assert_eq!(v, "2.00"),
        other => panic!("unexpected {:?}", other),
    }
}

#[test]
fn status_with_any_non_empty_params_is_a_mismatch() {
    let handler = handler_with(&["42"]);
    let texts = [
        r#"{"protocol_version":"2.0","method":"status","params":{"a":1},"id":"1"}"#,
        r#"{"protocol_version":"2.0","method":"status","params":{"account_id":"42","api_params":{}},"id":"1"}"#,
        r#"{"protocol_version":"2.0","method":"status","params":{"account_id":"42","http_method":"GET","endpoint":"/x","api_params":{}},"id":"1"}"#,
        r#"{"protocol_version":"2.0","method":"status","params":{"":null},"id":"1"}"#,
    ];
    for text in texts {
        let r = reply(handler.handle(Request::parse(text).unwrap()));
        assert_eq!(r.id, "1");
        let e = error_of(&r);
        assert_eq!(e.code, -32602);
        assert_eq!(e.message, "parameters do not match method status in request 1");
    }
}

#[test]
fn account_list_with_any_non_empty_params_is_a_mismatch() {
    let handler = handler_with(&["42"]);
    let texts = [
        r#"{"protocol_version":"2.0","method":"account-list","params":{"limit":3},"id":"9"}"#,
        r#"{"protocol_version":"2.0","method":"account-list","params":{"account_id":"42","api_params":{}},"id":"9"}"#,
    ];
    for text in texts {
        let r = reply(handler.handle(Request::parse(text).unwrap()));
        let e = error_of(&r);
        assert_eq!(e.code, -32602);
        assert_eq!(e.message, "parameters do not match method account-list in request 9");
    }
}

#[test]
fn account_list_names_the_sessions_in_order() {
    let handler = handler_with(&["b", "a", "c"]);
    let req = Request::parse(
        r#"{"protocol_version":"2.0","method":"account-list","params":{},"id":"5"}"#,
    )
    .unwrap();
    let r = reply(handler.handle(req));
    assert_eq!(
        r.render(),
        r#"{"protocol_version":"2.0","id":"5","result":{"account_ids":["b","a","c"]}}"#
    );
}

#[test]
fn timeline_for_unknown_account_is_an_unknown_account_failure() {
    let handler = handler_with(&["42"]);
    let req = Request::parse(
        r#"{"protocol_version":"2.0","method":"home-timeline","params":{"account_id":"43","api_params":{}},"id":"t"}"#,
    )
    .unwrap();
    let r = reply(handler.handle(req));
    assert_eq!(r.id, "t");
    let e = error_of(&r);
    assert_eq!(e.message, "unknown account: 43");
    assert_eq!(e.code, -32099);
    assert_ne!(e.code, -32000);
    assert_ne!(e.code, -32001);
    assert_ne!(e.code, -32602);
}

#[test]
fn plain_call_for_unknown_account_is_an_unknown_account_failure() {
    let handler = handler_with(&[]);
    let req = Request::parse(
        r#"{"protocol_version":"2.0","method":"plain-call","params":{"account_id":"1","http_method":"GET","endpoint":"/2/users/me","api_params":{}},"id":"p"}"#,
    )
    .unwrap();
    let r = reply(handler.handle(req));
    assert_eq!(error_of(&r).message, "unknown account: 1");
}

#[test]
fn timeline_for_known_account_hands_out_the_fetch() {
    let handler = handler_with(&["42"]);
    let req = Request::parse(
        r#"{"protocol_version":"2.0","method":"home-timeline","params":{"account_id":"42","api_params":{"max_results":10}},"id":"t"}"#,
    )
    .unwrap();
    match handler.handle(req) {
        Dispatch::Timeline { id, account_id, api_params } => {
            assert_eq!(id, "t");
            assert_eq!(account_id, "42");
            assert_eq!(api_params.len(), 1);
            assert_eq!(api_params[0].0, "max_results");
            assert!(matches!(&api_params[0].1, Json::Number(n) if n == "10"));
        }
        other => panic!("unexpected {:?}", other),
    }
}

#[test]
fn plain_call_for_known_account_hands_out_the_call() {
    let handler = handler_with(&["42"]);
    let req = Request::parse(
        r#"{"protocol_version":"2.0","method":"plain-call","params":{"account_id":"42","http_method":"POST","endpoint":"/2/tweets","api_params":{"text":"hi"}},"id":"p"}"#,
    )
    .unwrap();
    match handler.handle(req) {
        Dispatch::Call { id, account_id, http_method, endpoint, api_params } => {
            assert_eq!(id, "p");
            assert_eq!(account_id, "42");
            assert_eq!(http_method, HttpMethod::Post);
            assert_eq!(endpoint, "/2/tweets");
            assert_eq!(api_params.len(), 1);
            assert!(matches!(&api_params[0].1, Json::Text(t) if t == "hi"));
        }
        other => panic!("unexpected {:?}", other),
    }
}

#[test]
fn timeline_with_plain_shape_is_a_mismatch() {
    let handler = handler_with(&["42"]);
    let req = Request::parse(
        r#"{"protocol_version":"2.0","method":"home-timeline","params":{"account_id":"42","http_method":"GET","endpoint":"/x","api_params":{}},"id":"t"}"#,
    )
    .unwrap();
    let r = reply(handler.handle(req));
    assert_eq!(error_of(&r).code, -32602);
}

#[test]
fn plain_call_with_generic_map_is_a_mismatch() {
    let handler = handler_with(&["42"]);
    let req = Request::parse(
        r#"{"protocol_version":"2.0","method":"plain-call","params":{"endpoint":"/x"},"id":"p"}"#,
    )
    .unwrap();
    let r = reply(handler.handle(req));
    let e = error_of(&r);
    assert_eq!(e.code, -32602);
    assert_eq!(e.message, "parameters do not match method plain-call in request p");
}

#[test]
fn most_specific_shape_is_tried_first() {
    let plain = Request::parse(
        r#"{"protocol_version":"2.0","method":"plain-call","params":{"api_params":{},"endpoint":"/x","http_method":"DELETE","account_id":"1","extra":true},"id":"p"}"#,
    )
    .unwrap();
    assert!(matches!(
        plain.params,
        RequestParams::Plain { http_method: HttpMethod::Delete, .. }
    ));
    let with_id = Request::parse(
        r#"{"protocol_version":"2.0","method":"plain-call","params":{"account_id":"1","api_params":{},"endpoint":"/x"},"id":"p"}"#,
    )
    .unwrap();
    assert!(matches!(with_id.params, RequestParams::MapWithId { .. }));
    let unknown_verb = Request::parse(
        r#"{"protocol_version":"2.0","method":"plain-call","params":{"account_id":"1","api_params":{},"endpoint":"/x","http_method":"get"},"id":"p"}"#,
    )
    .unwrap();
    assert!(matches!(unknown_verb.params, RequestParams::MapWithId { .. }));
    let generic = Request::parse(
        r#"{"protocol_version":"2.0","method":"plain-call","params":{"account_id":1,"api_params":{}},"id":"p"}"#,
    )
    .unwrap();
    match generic.params {
        RequestParams::Generic(fields) => assert_eq!(fields.len(), 2),
        other => panic!("unexpected {:?}", other),
    }
}

#[test]
fn unreadable_requests_are_parse_failures() {
    let texts = [
        "not json",
        "[]",
        r#"{"method":"status","id":"1"}"#,
        r#"{"protocol_version":2.0,"method":"status","id":"1"}"#,
        r#"{"protocol_version":"2.0","method":"reboot","id":"1"}"#,
        r#"{"protocol_version":"2.0","method":"status"}"#,
        r#"{"protocol_version":"2.0","method":"status","id":1}"#,
    ];
    for text in texts {
        match Request::parse(text) {
            Err(e @ AppError::SocketPayloadParse(_)) => assert_eq!(e.code(), -32700),
            other => panic!("unexpected {:?} for {}", other, text),
        }
    }
}

#[test]
fn params_that_are_no_object_are_a_parameter_parse_failure() {
    for params in ["5", "null", "[]", "\"x\""] {
        let text = format!(
            r#"{{"protocol_version":"2.0","method":"status","params":{},"id":"1"}}"#,
            params
        );
        match Request::parse(&text) {
            Err(e @ AppError::RpcParamsParse(_)) => {
                assert_eq!(e.code(), -32700);
                assert_eq!(e.message(), "unreadable parameters: params is not an object");
            }
            other => panic!("unexpected {:?}", other),
        }
    }
}

#[test]
fn default_params_are_the_empty_map() {
    assert!(matches!(RequestParams::default(), RequestParams::Generic(fields) if fields.is_empty()));
}

#[test]
fn plain_reply_wraps_the_answer_as_it_came() {
    let body = Json::Object(vec![("data".to_string(), Json::Array(vec![Json::Bool(true), Json::Null]))]);
    let r = Handler::plain_reply("p".to_string(), Ok(body));
    assert_eq!(
        r.render(),
        r#"{"protocol_version":"2.0","id":"p","result":{"meta":{"api_calls_remaining":0,"api_calls_reset":0},"body":{"data":[true,null]}}}"#
    );
}

#[test]
fn plain_reply_reports_upstream_failures() {
    let r = Handler::plain_reply(
        "p".to_string(),
        Err(AppError::ApiResponseStatus(429, "slow down".to_string())),
    );
    let e = error_of(&r);
    assert_eq!(e.code, -32001);
    assert_eq!(e.message, "api responded with status 429: slow down");
    let r = Handler::plain_reply("p".to_string(), Err(AppError::ApiRequest("timeout".to_string())));
    assert_eq!(error_of(&r).code, -32000);
    assert_eq!(r.id, "p");
}

#[test]
fn meta_counts_are_written_in_decimal() {
    let r = Response::success(
        "m".to_string(),
        ResponseContent::Plain {
            meta: ResponsePlainMeta { api_calls_remaining: 1203, api_calls_reset: 1700000000 },
            body: Json::Number("1.5".to_string()),
        },
    );
    assert_eq!(
        r.render(),
        r#"{"protocol_version":"2.0","id":"m","result":{"meta":{"api_calls_remaining":1203,"api_calls_reset":1700000000},"body":1.5}}"#
    );
}

#[test]
fn response_has_exactly_one_of_result_and_error() {
    let ok = Response::success("1".to_string(), ResponseContent::Status { version: "v".to_string() });
    let failed = Response::failure("1".to_string(), AppError::RpcTooLarge);
    for (r, present, absent) in [(ok, "result", "error"), (failed, "error", "result")] {
        match r.to_json() {
            Json::Object(members) => {
                let names: Vec<&str> = members.iter().map(|(k, _)| k.as_str()).collect();
                assert_eq!(names, vec!["protocol_version", "id", present]);
                assert!(!names.contains(&absent));
            }
            other => panic!("unexpected {:?}", other),
        }
    }
}
