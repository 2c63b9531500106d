//! The request protocol: requests, responses and the dispatcher.

use vstd::prelude::*;
use vstd::string::*;
use crate::accounts::AccountMap;
use crate::assoc::{has_key, keys};
use crate::error::AppError;
use crate::filter::{apply_filters, filters_callable, retained, timeline_fails, timeline_outcomes};
use crate::json::Json;
use crate::methods::HttpMethod;
use crate::text::texts;
use crate::VERSION;

verus! {

/// The one protocol version that requests may name.
pub const PROTOCOL_VERSION: &'static str = "2.0";

/// What a request asks for.
#[derive(Debug, Clone, Copy, PartialEq, Eq, Structural)]
pub enum Method {
    Plain,
    HomeTimeline,
    Status,
    AccountList,
}

impl Method {
    /// The method's name on the wire.
    pub open spec fn name_text(self) -> Seq<char> {
        match self {
            Method::Plain => "plain-call"@,
            Method::HomeTimeline => "home-timeline"@,
            Method::Status => "status"@,
            Method::AccountList => "account-list"@,
        }
    }

    /// The method's name on the wire.
    pub fn name(&self) -> (r: &'static str)
        ensures
            r@ == self.name_text(),
    {
        match self {
            Method::Plain => "plain-call",
            Method::HomeTimeline => "home-timeline",
            Method::Status => "status",
            Method::AccountList => "account-list",
        }
    }
}

/// The parameters of a request, told apart by their shape.
#[derive(Debug)]
pub enum RequestParams {
    Plain { account_id: String, http_method: HttpMethod, endpoint: String, api_params: Vec<(String, Json)> },
    MapWithId { account_id: String, api_params: Vec<(String, Json)> },
    Generic(Vec<(String, Json)>),
}

/// One request.
#[derive(Debug)]
pub struct Request {
    pub protocol_version: String,
    pub method: Method,
    pub params: RequestParams,
    pub id: String,
}

/// How much of the remote API's allowance is left.
#[derive(Debug, Clone, Copy, PartialEq, Eq, Structural)]
pub struct ResponsePlainMeta {
    pub api_calls_remaining: usize,
    /// In seconds since the epoch.
    pub api_calls_reset: usize,
}

/// A failure as the caller sees it.
#[derive(Debug)]
pub struct ResponseError {
    pub code: isize,
    pub message: String,
    pub data: Option<Json>,
}

/// What a response carries: the result of its method, or an error.
#[derive(Debug)]
#[allow(inconsistent_fields)]
pub enum ResponseContent {
    Plain { meta: ResponsePlainMeta, body: Json },
    HomeTimeline { meta: ResponsePlainMeta, body: Vec<Json> },
    Status { version: String },
    AccountList { account_ids: Vec<String> },
    Error(ResponseError),
}

/// One response. Its `id` is the `id` of the request that it answers.
#[derive(Debug)]
pub struct Response {
    pub protocol_version: String,
    pub content: ResponseContent,
    pub id: String,
}

impl ResponseError {
    /// Whether this is what the caller sees of `err`: its wire code, its
    /// message and no data.
    pub open spec fn reports(self, err: AppError) -> bool {
        &&& self.code == err.code_of()
        &&& self.message@ == err.message_text()
        &&& self.data is None
    }

    /// What the caller sees of a failure.
    pub fn from(err: AppError) -> (r: ResponseError)
        ensures
            r.reports(err),
    {
        ResponseError { code: err.code(), message: err.message(), data: None }
    }
}

impl Response {
    /// The response to a plain call, for a given version text.
    pub open spec fn plain_spec(protocol_version: String, id: String, body: Json) -> Response {
        Response {
            protocol_version,
            content: ResponseContent::Plain {
                meta: ResponsePlainMeta { api_calls_remaining: 0, api_calls_reset: 0 },
                body,
            },
            id,
        }
    }

    /// Whether the response answers request `id` with the failure `err`.
    pub open spec fn fails_with(self, id: Seq<char>, err: AppError) -> bool {
        &&& self.protocol_version@ == PROTOCOL_VERSION@
        &&& self.id@ == id
        &&& self.content matches ResponseContent::Error(e)
        &&& e.reports(err)
    }

    /// Whether the response answers request `id` with `content`.
    pub open spec fn succeeds_with(self, id: String, content: ResponseContent) -> bool {
        &&& self.protocol_version@ == PROTOCOL_VERSION@
        &&& self.id == id
        &&& self.content == content
    }

    /// The response that reports `err` to the sender of request `id`.
    pub fn failure(id: String, err: AppError) -> (r: Response)
        ensures
            r.fails_with(id@, err),
            r.id == id,
    {
        Response {
            protocol_version: String::from_str(PROTOCOL_VERSION),
            content: ResponseContent::Error(ResponseError::from(err)),
            id,
        }
    }

    /// The response that carries `content` to the sender of request `id`.
    pub fn success(id: String, content: ResponseContent) -> (r: Response)
        ensures
            r.succeeds_with(id, content),
    {
        Response { protocol_version: String::from_str(PROTOCOL_VERSION), content, id }
    }

    /// The response to a plain call: the remote API's answer as it came.
    pub fn plain(id: String, body: Json) -> (r: Response)
        ensures
            r.succeeds_with(
                id,
                ResponseContent::Plain {
                    meta: ResponsePlainMeta { api_calls_remaining: 0, api_calls_reset: 0 },
                    body,
                },
            ),
    {
        let meta = ResponsePlainMeta { api_calls_remaining: 0, api_calls_reset: 0 };
        Response::success(id, ResponseContent::Plain { meta, body })
    }

    /// The response to a timeline request: the items that the filters kept.
    pub fn home_timeline(id: String, body: Vec<Json>) -> (r: Response)
        ensures
            r.succeeds_with(
                id,
                ResponseContent::HomeTimeline {
                    meta: ResponsePlainMeta { api_calls_remaining: 0, api_calls_reset: 0 },
                    body,
                },
            ),
    {
        let meta = ResponsePlainMeta { api_calls_remaining: 0, api_calls_reset: 0 };
        Response::success(id, ResponseContent::HomeTimeline { meta, body })
    }
}

impl Request {
    /// Accepts the request where it names the supported protocol version.
    pub fn validate(&self) -> (r: Result<(), AppError>)
        ensures
            self.protocol_version@ == PROTOCOL_VERSION@ ==> r is Ok,
            self.protocol_version@ != PROTOCOL_VERSION@ ==> (r matches Err(
                AppError::RpcVersion(v),
            ) && v@ == self.protocol_version@),
    {
        if crate::text::same_text(self.protocol_version.as_str(), PROTOCOL_VERSION) {
            Ok(())
        } else {
            Err(AppError::RpcVersion(self.protocol_version.clone()))
        }
    }
}

/// What the dispatcher decided on a request: the response, where it needs
/// nothing from outside, or the remote call whose result the response will
/// carry.
#[derive(Debug)]
pub enum Dispatch {
    /// The request is answered.
    Reply(Response),
    /// The remote API's generic call is to be made for the account.
    Call {
        id: String,
        account_id: String,
        http_method: HttpMethod,
        endpoint: String,
        api_params: Vec<(String, Json)>,
    },
    /// The account's reverse-chronological timeline is to be fetched.
    Timeline { id: String, account_id: String, api_params: Vec<(String, Json)> },
}

impl Dispatch {
    /// Whether the request `id` is answered with the failure `err`.
    pub open spec fn fails_with(self, id: Seq<char>, err: AppError) -> bool {
        self matches Dispatch::Reply(r) && r.fails_with(id, err)
    }
}

/// The dispatcher: the sessions that requests may name, and where the
/// filters of the configured scopes are found.
#[derive(Debug)]
pub struct Handler {
    pub clients: AccountMap,
    pub filter_path: String,
    pub scopes: Vec<String>,
}

impl Handler {
    /// What the dispatcher owes on a request that names the supported
    /// protocol version.
    pub open spec fn routed(self, req: Request, d: Dispatch) -> bool {
        match req.method {
            Method::Plain => match req.params {
                RequestParams::Plain { account_id, http_method, endpoint, api_params } => {
                    if has_key(self.clients@, account_id@) {
                        d == (Dispatch::Call {
                            id: req.id,
                            account_id,
                            http_method,
                            endpoint,
                            api_params,
                        })
                    } else {
                        d.fails_with(req.id@, AppError::RpcUnknownAccount(account_id))
                    }
                },
                _ => d.fails_with(req.id@, AppError::RpcParamsMismatch(req)),
            },
            Method::HomeTimeline => match req.params {
                RequestParams::MapWithId { account_id, api_params } => {
                    if has_key(self.clients@, account_id@) {
                        d == (Dispatch::Timeline { id: req.id, account_id, api_params })
                    } else {
                        d.fails_with(req.id@, AppError::RpcUnknownAccount(account_id))
                    }
                },
                _ => d.fails_with(req.id@, AppError::RpcParamsMismatch(req)),
            },
            Method::Status => {
                if req.params matches RequestParams::Generic(fields) && fields@.len() == 0 {
                    &&& d matches Dispatch::Reply(r)
                    &&& r.protocol_version@ == PROTOCOL_VERSION@
                    &&& r.id == req.id
                    &&& r.content matches ResponseContent::Status { version }
                    &&& version@ == VERSION@
                } else {
                    d.fails_with(req.id@, AppError::RpcParamsMismatch(req))
                }
            },
            Method::AccountList => {
                if req.params matches RequestParams::Generic(fields) && fields@.len() == 0 {
                    &&& d matches Dispatch::Reply(r)
                    &&& r.protocol_version@ == PROTOCOL_VERSION@
                    &&& r.id == req.id
                    &&& r.content matches ResponseContent::AccountList { account_ids }
                    &&& texts(account_ids@) == keys(self.clients@)
                } else {
                    d.fails_with(req.id@, AppError::RpcParamsMismatch(req))
                }
            },
        }
    }

    /// What the dispatcher owes on a request.
    pub open spec fn handled(self, req: Request, d: Dispatch) -> bool {
        if req.protocol_version@ == PROTOCOL_VERSION@ {
            self.routed(req, d)
        } else {
            d.fails_with(req.id@, AppError::RpcVersion(req.protocol_version))
        }
    }

    fn handle_inner(&self, req: Request) -> (r: Result<Dispatch, AppError>)
        ensures
            match r {
                Ok(d) => self.handled(req, d),
                Err(e) => forall|d: Dispatch| d.fails_with(req.id@, e) ==> self.handled(req, d),
            },
    {
        match req.validate() {
            Ok(()) => {},
            Err(e) => {
                return Err(e);
            },
        }
        match req.method {
            Method::Plain => self.handle_plain(req),
            Method::HomeTimeline => self.handle_timeline(req),
            Method::Status => self.handle_status(req),
            Method::AccountList => self.handle_account_list(req),
        }
    }

    fn handle_plain(&self, req: Request) -> (r: Result<Dispatch, AppError>)
        requires
            req.method == Method::Plain,
        ensures
            match r {
                Ok(d) => self.routed(req, d),
                Err(e) => forall|d: Dispatch| d.fails_with(req.id@, e) ==> self.routed(req, d),
            },
    {
        let Request { protocol_version, method, params, id } = req;
        match params {
            RequestParams::Plain { account_id, http_method, endpoint, api_params } => {
                if !self.clients.contains(account_id.as_str()) {
                    return Err(AppError::RpcUnknownAccount(account_id));
                }
                Ok(Dispatch::Call { id, account_id, http_method, endpoint, api_params })
            },
            params => Err(
                AppError::RpcParamsMismatch(Request { protocol_version, method, params, id }),
            ),
        }
    }

    fn handle_timeline(&self, req: Request) -> (r: Result<Dispatch, AppError>)
        requires
            req.method == Method::HomeTimeline,
        ensures
            match r {
                Ok(d) => self.routed(req, d),
                Err(e) => forall|d: Dispatch| d.fails_with(req.id@, e) ==> self.routed(req, d),
            },
    {
        let Request { protocol_version, method, params, id } = req;
        match params {
            RequestParams::MapWithId { account_id, api_params } => {
                if !self.clients.contains(account_id.as_str()) {
                    return Err(AppError::RpcUnknownAccount(account_id));
                }
                Ok(Dispatch::Timeline { id, account_id, api_params })
            },
            params => Err(
                AppError::RpcParamsMismatch(Request { protocol_version, method, params, id }),
            ),
        }
    }

    fn handle_status(&self, req: Request) -> (r: Result<Dispatch, AppError>)
        requires
            req.method == Method::Status,
        ensures
            match r {
                Ok(d) => self.routed(req, d),
                Err(e) => forall|d: Dispatch| d.fails_with(req.id@, e) ==> self.routed(req, d),
            },
    {
        let empty = match &req.params {
            RequestParams::Generic(fields) => fields.len() == 0,
            _ => false,
        };
        if !empty {
            return Err(AppError::RpcParamsMismatch(req));
        }
        let content = ResponseContent::Status { version: String::from_str(VERSION) };
        Ok(Dispatch::Reply(Response::success(req.id, content)))
    }

    fn handle_account_list(&self, req: Request) -> (r: Result<Dispatch, AppError>)
        requires
            req.method == Method::AccountList,
        ensures
            match r {
                Ok(d) => self.routed(req, d),
                Err(e) => forall|d: Dispatch| d.fails_with(req.id@, e) ==> self.routed(req, d),
            },
    {
        let empty = match &req.params {
            RequestParams::Generic(fields) => fields.len() == 0,
            _ => false,
        };
        if !empty {
            return Err(AppError::RpcParamsMismatch(req));
        }
        let content = ResponseContent::AccountList { account_ids: self.clients.ids() };
        Ok(Dispatch::Reply(Response::success(req.id, content)))
    }

    /// Decides on one request. A request that names another protocol
    /// version, or whose parameters are not of the shape that its method
    /// requires, or that names an account without a session, is answered
    /// with that failure; `status` and `account-list` are answered at once;
    /// for a plain call and a timeline the remote call is handed out. Every
    /// answer carries the request's `id`.
    pub fn handle(&self, req: Request) -> (d: Dispatch)
        ensures
            self.handled(req, d),
            req.protocol_version@ != PROTOCOL_VERSION@ ==> d.fails_with(
                req.id@,
                AppError::RpcVersion(req.protocol_version),
            ),
            req.protocol_version@ == PROTOCOL_VERSION@ && (req.method == Method::Status
                || req.method == Method::AccountList) && !(req.params matches RequestParams::Generic(
                fields,
            ) && fields@.len() == 0) ==> d.fails_with(req.id@, AppError::RpcParamsMismatch(req)),
            req.protocol_version@ == PROTOCOL_VERSION@ && req.method == Method::HomeTimeline ==> (
            req.params matches RequestParams::MapWithId { account_id, .. } ==> !has_key(
                self.clients@,
                account_id@,
            ) ==> d.fails_with(req.id@, AppError::RpcUnknownAccount(account_id))),
    {
        let id = req.id.clone();
        match self.handle_inner(req) {
            Ok(d) => d,
            Err(err) => {
                let d = Dispatch::Reply(Response::failure(id, err));
                assert(d.fails_with(req.id@, err));
                assert(self.handled(req, d));
                d
            },
        }
    }

    /// The response to a plain call once the remote API has answered.
    pub fn plain_reply(id: String, answer: Result<Json, AppError>) -> (r: Response)
        ensures
            match answer {
                Ok(body) => r == Response::plain_spec(r.protocol_version, id, body),
                Err(err) => r.fails_with(id@, err),
            },
            r.protocol_version@ == PROTOCOL_VERSION@,
            r.id == id,
    {
        match answer {
            Ok(body) => Response::plain(id, body),
            Err(err) => Response::failure(id, err),
        }
    }

    /// The response to a timeline request once the timeline has been
    /// fetched: every item is threaded through the filters in order, and the
    /// response carries those that no filter dropped, as the last filter
    /// handed them on. A filter that fails turns the response into that
    /// failure.
    pub fn timeline_reply<F: Fn(&Json) -> Result<Option<Json>, String>>(
        id: String,
        items: Vec<Json>,
        filters: &Vec<F>,
    ) -> (r: Response)
        requires
            filters_callable(filters@),
        ensures
            r.protocol_version@ == PROTOCOL_VERSION@,
            r.id == id,
            match r.content {
                ResponseContent::HomeTimeline { meta, body } => {
                    &&& meta == (ResponsePlainMeta { api_calls_remaining: 0, api_calls_reset: 0 })
                    &&& exists|outcomes: Seq<Option<Json>>|
                        #[trigger] timeline_outcomes(filters@, items@, outcomes) && body@
                            == retained(outcomes)
                },
                ResponseContent::Error(e) => exists|message: String|
                    timeline_fails(filters@, items@, message) && #[trigger] e.reports(
                        AppError::Filter(message),
                    ),
                _ => false,
            },
    {
        match apply_filters(items, filters) {
            Ok(kept) => Response::home_timeline(id, kept),
            Err(message) => {
                let r = Response::failure(id, AppError::Filter(message));
                assert(r.content->Error_0.reports(AppError::Filter(message)));
                r
            },
        }
    }
}

} // verus!
