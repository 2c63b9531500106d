//! Requests and responses as JSON documents and as JSON text.

use vstd::prelude::*;
use vstd::string::*;
use crate::assoc::lookup;
use crate::connection::{Method, Request, RequestParams};
use crate::connection::{Response, ResponseContent, ResponseError, ResponsePlainMeta};
use crate::error::AppError;
use crate::json::{array_items, lemma_array_view, object_members};
use crate::json::{document_in, member, members_in, text_in, text_of};
use crate::json::{member_of, names_to_json, object_of, text_values, Json, JsonValue};
use crate::methods::{http_method_named, HttpMethod};
use crate::text::{decimal, decimal_text, signed_decimal, signed_decimal_text, texts};

verus! {

/// The document of the allowance: two counts.
pub open spec fn meta_document(meta: ResponsePlainMeta) -> JsonValue {
    JsonValue::Object(
        seq![
            ("api_calls_remaining"@, JsonValue::Number(decimal_text(meta.api_calls_remaining as nat))),
            ("api_calls_reset"@, JsonValue::Number(decimal_text(meta.api_calls_reset as nat))),
        ],
    )
}

/// The document of an error: its code, its message and its data, null where
/// it has none.
pub open spec fn error_document(error: ResponseError) -> JsonValue {
    JsonValue::Object(
        seq![
            ("code"@, JsonValue::Number(signed_decimal_text(error.code as int))),
            ("message"@, JsonValue::Text(error.message@)),
            (
                "data"@,
                match error.data {
                    Some(data) => data@,
                    None => JsonValue::Null,
                },
            ),
        ],
    )
}

/// The member that carries a response's content: `error` for a failure,
/// `result` for everything else.
pub open spec fn content_member(content: ResponseContent) -> (Seq<char>, JsonValue) {
    match content {
        ResponseContent::Plain { meta, body } => (
            "result"@,
            JsonValue::Object(seq![("meta"@, meta_document(meta)), ("body"@, body@)]),
        ),
        ResponseContent::HomeTimeline { meta, body } => (
            "result"@,
            JsonValue::Object(
                seq![("meta"@, meta_document(meta)), ("body"@, JsonValue::Array(array_items(body@)))],
            ),
        ),
        ResponseContent::Status { version } => (
            "result"@,
            JsonValue::Object(seq![("version"@, JsonValue::Text(version@))]),
        ),
        ResponseContent::AccountList { account_ids } => (
            "result"@,
            JsonValue::Object(
                seq![("account_ids"@, JsonValue::Array(text_values(texts(account_ids@))))],
            ),
        ),
        ResponseContent::Error(error) => ("error"@, error_document(error)),
    }
}

/// The document of a response: the protocol version, the request's `id`, and
/// exactly one of `result` and `error`.
pub open spec fn response_document(response: Response) -> JsonValue {
    JsonValue::Object(
        seq![
            ("protocol_version"@, JsonValue::Text(response.protocol_version@)),
            ("id"@, JsonValue::Text(response.id@)),
            content_member(response.content),
        ],
    )
}

fn meta_to_json(meta: &ResponsePlainMeta) -> (r: Json)
    ensures
        r@ == meta_document(*meta),
{
    let remaining = Json::Number(decimal(meta.api_calls_remaining as u64));
    let reset = Json::Number(decimal(meta.api_calls_reset as u64));
    let members = vec![member_of("api_calls_remaining", remaining), member_of("api_calls_reset", reset)];
    assert(object_members(members@) =~= meta_document(*meta)->Object_0);
    object_of(members)
}

fn error_to_json(error: &ResponseError) -> (r: Json)
    ensures
        r@ == error_document(*error),
{
    let code = Json::Number(signed_decimal(error.code as i64));
    let message = Json::Text(error.message.clone());
    let data = match &error.data {
        Some(data) => data.duplicate(),
        None => Json::Null,
    };
    let members = vec![member_of("code", code), member_of("message", message), member_of("data", data)];
    assert(object_members(members@) =~= error_document(*error)->Object_0);
    object_of(members)
}

fn items_to_json(items: &Vec<Json>) -> (r: Json)
    ensures
        r@ == JsonValue::Array(array_items(items@)),
{
    let mut out: Vec<Json> = Vec::new();
    let mut i: usize = 0;
    while i < items.len()
        invariant
            i <= items.len(),
            out.len() == i,
            forall|k: int| 0 <= k < i ==> out@[k]@ == items@[k]@,
        decreases items.len() - i,
    {
        out.push(items[i].duplicate());
        i += 1;
    }
    proof {
        lemma_array_view(out);
        assert(array_items(out@) =~= array_items(items@));
    }
    Json::Array(out)
}

fn content_to_member(content: &ResponseContent) -> (r: (String, Json))
    ensures
        (r.0@, r.1@) == content_member(*content),
{
    match content {
        ResponseContent::Plain { meta, body } => {
            let members = vec![member_of("meta", meta_to_json(meta)), member_of("body", body.duplicate())];
            assert(object_members(members@) =~= content_member(*content).1->Object_0);
            member_of("result", object_of(members))
        },
        ResponseContent::HomeTimeline { meta, body } => {
            let members = vec![member_of("meta", meta_to_json(meta)), member_of("body", items_to_json(body))];
            assert(object_members(members@) =~= content_member(*content).1->Object_0);
            member_of("result", object_of(members))
        },
        ResponseContent::Status { version } => {
            let members = vec![member_of("version", Json::Text(version.clone()))];
            assert(object_members(members@) =~= content_member(*content).1->Object_0);
            member_of("result", object_of(members))
        },
        ResponseContent::AccountList { account_ids } => {
            let members = vec![member_of("account_ids", names_to_json(account_ids))];
            assert(object_members(members@) =~= content_member(*content).1->Object_0);
            member_of("result", object_of(members))
        },
        ResponseContent::Error(error) => member_of("error", error_to_json(error)),
    }
}

impl Response {
    /// The response as a JSON document.
    pub fn to_json(&self) -> (r: Json)
        ensures
            r@ == response_document(*self),
    {
        let members = vec![
            member_of("protocol_version", Json::Text(self.protocol_version.clone())),
            member_of("id", Json::Text(self.id.clone())),
            content_to_member(&self.content),
        ];
        assert(object_members(members@) =~= response_document(*self)->Object_0);
        object_of(members)
    }

    /// The response as JSON text: what the serializer writes for its document.
    pub fn render(&self) -> (r: String)
        ensures
            r@ == text_of(response_document(*self)),
    {
        let document = self.to_json();
        document.render()
    }
}

/// The value of a request's parameters.
pub enum ParamsValue {
    Plain {
        account_id: Seq<char>,
        http_method: HttpMethod,
        endpoint: Seq<char>,
        api_params: Seq<(Seq<char>, JsonValue)>,
    },
    MapWithId { account_id: Seq<char>, api_params: Seq<(Seq<char>, JsonValue)> },
    Generic(Seq<(Seq<char>, JsonValue)>),
}

/// The value of a request.
pub struct RequestValue {
    pub protocol_version: Seq<char>,
    pub method: Method,
    pub params: ParamsValue,
    pub id: Seq<char>,
}

impl View for RequestParams {
    type V = ParamsValue;

    open spec fn view(&self) -> ParamsValue {
        match self {
            RequestParams::Plain { account_id, http_method, endpoint, api_params } => {
                ParamsValue::Plain {
                    account_id: account_id@,
                    http_method: *http_method,
                    endpoint: endpoint@,
                    api_params: object_members(api_params@),
                }
            },
            RequestParams::MapWithId { account_id, api_params } => ParamsValue::MapWithId {
                account_id: account_id@,
                api_params: object_members(api_params@),
            },
            RequestParams::Generic(fields) => ParamsValue::Generic(object_members(fields@)),
        }
    }
}

impl View for Request {
    type V = RequestValue;

    open spec fn view(&self) -> RequestValue {
        RequestValue {
            protocol_version: self.protocol_version@,
            method: self.method,
            params: self.params@,
            id: self.id@,
        }
    }
}

/// The method that a wire name stands for.
pub open spec fn method_named(name: Seq<char>) -> Option<Method> {
    if name == "plain-call"@ {
        Some(Method::Plain)
    } else if name == "home-timeline"@ {
        Some(Method::HomeTimeline)
    } else if name == "status"@ {
        Some(Method::Status)
    } else if name == "account-list"@ {
        Some(Method::AccountList)
    } else {
        None
    }
}

/// The HTTP method that a member names, where it is a string that names one.
pub open spec fn http_method_in(value: Option<JsonValue>) -> Option<HttpMethod> {
    match text_in(value) {
        Some(name) => http_method_named(name),
        None => None,
    }
}

/// The shape of an object of parameters. The shape with the most named
/// fields is tried first: an object is a plain call's where it holds an
/// account, an HTTP method, an endpoint and an object of API parameters; else
/// it is an account with API parameters where it holds those two; else it is
/// a generic map of all its members. Members beyond the named ones do not
/// matter to the first two shapes.
pub open spec fn params_of(fields: Seq<(Seq<char>, JsonValue)>) -> ParamsValue {
    let account_id = text_in(lookup(fields, "account_id"@));
    let http_method = http_method_in(lookup(fields, "http_method"@));
    let endpoint = text_in(lookup(fields, "endpoint"@));
    let api_params = members_in(lookup(fields, "api_params"@));
    if account_id is Some && http_method is Some && endpoint is Some && api_params is Some {
        ParamsValue::Plain {
            account_id: account_id->Some_0,
            http_method: http_method->Some_0,
            endpoint: endpoint->Some_0,
            api_params: api_params->Some_0,
        }
    } else if account_id is Some && api_params is Some {
        ParamsValue::MapWithId { account_id: account_id->Some_0, api_params: api_params->Some_0 }
    } else {
        ParamsValue::Generic(fields)
    }
}

/// The parameters that a request's document holds: those of its `params`
/// member, which must be an object; the empty generic map where it has no
/// such member.
pub open spec fn params_in(members: Seq<(Seq<char>, JsonValue)>) -> Option<ParamsValue> {
    match lookup(members, "params"@) {
        None => Some(ParamsValue::Generic(Seq::empty())),
        Some(JsonValue::Object(fields)) => Some(params_of(fields)),
        Some(_) => None,
    }
}

/// The method that a member names, where it is a string that names one.
pub open spec fn method_in(value: Option<JsonValue>) -> Option<Method> {
    match text_in(value) {
        Some(name) => method_named(name),
        None => None,
    }
}

/// Whether a document has the frame of a request: an object with a string
/// `protocol_version`, a `method` that names a method and a string `id`.
pub open spec fn framed(document: JsonValue) -> bool {
    &&& document is Object
    &&& text_in(lookup(document->Object_0, "protocol_version"@)) is Some
    &&& method_in(lookup(document->Object_0, "method"@)) is Some
    &&& text_in(lookup(document->Object_0, "id"@)) is Some
}

/// What is wrong with a document that has not the frame of a request: the
/// first of its faults, in the order object, version, method, id.
pub open spec fn frame_fault(document: JsonValue) -> Seq<char> {
    if !(document is Object) {
        "a request is an object"@
    } else if text_in(lookup(document->Object_0, "protocol_version"@)) is None {
        "protocol_version is missing or not a string"@
    } else if method_in(lookup(document->Object_0, "method"@)) is None {
        "method is missing or names no method"@
    } else {
        "id is missing or not a string"@
    }
}

/// The request that a document holds.
pub open spec fn request_in(document: JsonValue) -> Option<RequestValue> {
    if framed(document) && params_in(document->Object_0) is Some {
        Some(
            RequestValue {
                protocol_version: text_in(lookup(document->Object_0, "protocol_version"@))->Some_0,
                method: method_in(lookup(document->Object_0, "method"@))->Some_0,
                params: params_in(document->Object_0)->Some_0,
                id: text_in(lookup(document->Object_0, "id"@))->Some_0,
            },
        )
    } else {
        None
    }
}

/// A copy of an object's members.
pub fn duplicate_members(members: &Vec<(String, Json)>) -> (r: Vec<(String, Json)>)
    ensures
        object_members(r@) == object_members(members@),
{
    let mut out: Vec<(String, Json)> = Vec::new();
    let mut i: usize = 0;
    while i < members.len()
        invariant
            i <= members.len(),
            out.len() == i,
            forall|k: int|
                0 <= k < i ==> out@[k].0@ == members@[k].0@ && out@[k].1@ == members@[k].1@,
        decreases members.len() - i,
    {
        out.push((members[i].0.clone(), members[i].1.duplicate()));
        i += 1;
    }
    assert(object_members(out@) =~= object_members(members@));
    out
}

fn text_member<'a>(members: &'a Vec<(String, Json)>, key: &str) -> (r: Option<&'a String>)
    ensures
        match r {
            Some(s) => text_in(lookup(object_members(members@), key@)) == Some(s@),
            None => text_in(lookup(object_members(members@), key@)) is None,
        },
{
    match member(members, key) {
        Some(value) => value.as_text(),
        None => None,
    }
}

fn object_member<'a>(members: &'a Vec<(String, Json)>, key: &str) -> (r: Option<
    &'a Vec<(String, Json)>,
>)
    ensures
        match r {
            Some(m) => members_in(lookup(object_members(members@), key@)) == Some(
                object_members(m@),
            ),
            None => members_in(lookup(object_members(members@), key@)) is None,
        },
{
    match member(members, key) {
        Some(value) => value.as_members(),
        None => None,
    }
}

impl Method {
    /// Reads a method's wire name.
    pub fn parse(name: &str) -> (r: Option<Method>)
        ensures
            r == method_named(name@),
    {
        if crate::text::same_text(name, "plain-call") {
            Some(Method::Plain)
        } else if crate::text::same_text(name, "home-timeline") {
            Some(Method::HomeTimeline)
        } else if crate::text::same_text(name, "status") {
            Some(Method::Status)
        } else if crate::text::same_text(name, "account-list") {
            Some(Method::AccountList)
        } else {
            None
        }
    }
}

impl RequestParams {
    /// The parameters that an object's members make: the most specific shape
    /// that they fit.
    pub fn from_members(fields: &Vec<(String, Json)>) -> (r: RequestParams)
        ensures
            r@ == params_of(object_members(fields@)),
    {
        let account_id = text_member(fields, "account_id");
        let api_params = object_member(fields, "api_params");
        match (account_id, api_params) {
            (Some(account_id), Some(api_params)) => {
                let http_method = match text_member(fields, "http_method") {
                    Some(name) => HttpMethod::parse(name.as_str()),
                    None => None,
                };
                let endpoint = text_member(fields, "endpoint");
                match (http_method, endpoint) {
                    (Some(http_method), Some(endpoint)) => RequestParams::Plain {
                        account_id: account_id.clone(),
                        http_method,
                        endpoint: endpoint.clone(),
                        api_params: duplicate_members(api_params),
                    },
                    _ => RequestParams::MapWithId {
                        account_id: account_id.clone(),
                        api_params: duplicate_members(api_params),
                    },
                }
            },
            _ => RequestParams::Generic(duplicate_members(fields)),
        }
    }
}

impl Default for RequestParams {
    fn default() -> (r: Self)
        ensures
            r@ == ParamsValue::Generic(Seq::empty()),
    {
        let r = RequestParams::Generic(Vec::new());
        assert(object_members(Seq::<(String, Json)>::empty()) =~= Seq::empty());
        r
    }
}

impl Request {
    /// Reads a request from its document. A document without the frame of a
    /// request is refused as unreadable; one with the frame whose `params`
    /// is not an object is refused for its parameters.
    pub fn from_json(document: &Json) -> (r: Result<Request, AppError>)
        ensures
            match r {
                Ok(request) => request_in(document@) == Some(request@),
                Err(AppError::SocketPayloadParse(detail)) => !framed(document@) && detail@
                    == frame_fault(document@),
                Err(AppError::RpcParamsParse(detail)) => framed(document@) && params_in(
                    document@->Object_0,
                ) is None && detail@ == "params is not an object"@,
                Err(_) => false,
            },
    {
        let members = match document.as_members() {
            Some(members) => members,
            None => {
                return Err(
                    AppError::SocketPayloadParse(String::from_str("a request is an object")),
                );
            },
        };
        let protocol_version = match text_member(members, "protocol_version") {
            Some(s) => s.clone(),
            None => {
                return Err(
                    AppError::SocketPayloadParse(
                        String::from_str("protocol_version is missing or not a string"),
                    ),
                );
            },
        };
        let method = match text_member(members, "method") {
            Some(name) => Method::parse(name.as_str()),
            None => None,
        };
        let method = match method {
            Some(method) => method,
            None => {
                return Err(
                    AppError::SocketPayloadParse(
                        String::from_str("method is missing or names no method"),
                    ),
                );
            },
        };
        let id = match text_member(members, "id") {
            Some(s) => s.clone(),
            None => {
                return Err(
                    AppError::SocketPayloadParse(String::from_str("id is missing or not a string")),
                );
            },
        };
        let params = match member(members, "params") {
            None => RequestParams::default(),
            Some(value) => match value.as_members() {
                Some(fields) => RequestParams::from_members(fields),
                None => {
                    return Err(
                        AppError::RpcParamsParse(String::from_str("params is not an object")),
                    );
                },
            },
        };
        Ok(Request { protocol_version, method, params, id })
    }

    /// What reading a request from a parsed text comes to: `parsed` is what
    /// the JSON parser made of the text.
    pub open spec fn parsed_from(parsed: Option<JsonValue>, r: Result<Request, AppError>) -> bool {
        match r {
            Ok(request) => parsed is Some && request_in(parsed->Some_0) == Some(request@),
            Err(AppError::SocketPayloadParse(detail)) => match parsed {
                Some(document) => !framed(document) && detail@ == frame_fault(document),
                None => true,
            },
            Err(AppError::RpcParamsParse(detail)) => parsed is Some && framed(parsed->Some_0)
                && params_in(parsed->Some_0->Object_0) is None && detail@
                == "params is not an object"@,
            Err(_) => false,
        }
    }

    /// Reads a request from JSON text: the text is parsed, and the request is
    /// read from the document. Text that is no JSON document is refused as
    /// unreadable, with the parser's message.
    pub fn parse(text: &str) -> (r: Result<Request, AppError>)
        ensures
            Request::parsed_from(document_in(text@), r),
    {
        match Json::parse(text) {
            Ok(document) => Request::from_json(&document),
            Err(message) => Err(AppError::SocketPayloadParse(message)),
        }
    }
}

/// An object of parameters is the empty generic map only where it has no
/// member: whatever its keys, a non-empty object is never what `status` and
/// `account-list` require.
pub proof fn lemma_only_empty_object_is_empty_map(fields: Seq<(Seq<char>, JsonValue)>)
    ensures
        params_of(fields) == ParamsValue::Generic(Seq::empty()) <==> fields.len() == 0,
{
    if fields.len() == 0 {
        assert(fields =~= Seq::empty());
        assert(lookup(fields, "account_id"@) is None);
    } else {
        assert(fields != Seq::<(Seq<char>, JsonValue)>::empty());
    }
}

} // verus!
