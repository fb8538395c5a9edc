//! The requests of the management API.
//!
//! The client knows where the server is and writes every request of the API:
//! its method, address, query parameters and body. It sends nothing itself.

use vstd::prelude::*;
use vstd::string::StringExecFns;

use crate::config::HawkbitConfig;
use crate::config::HawkbitConfigView;
use crate::pager::PAGE_SIZE;
use crate::request::param_views;
use crate::request::push_param;
use crate::request::Method;
use crate::request::Param;
use crate::request::Payload;
use crate::request::PayloadView;
use crate::request::Request;
use crate::request::RequestView;
use crate::text::decimal;
use crate::text::trim_end;
use crate::text::trim_end_char;
use crate::text::trim_start;
use crate::text::trim_start_char;
use crate::text::u64_to_decimal;

verus! {

/// The address of `endpoint` on the server at `host`: the versioned prefix of
/// the API stands between them, with exactly one `/` on either side of it.
pub open spec fn url_for(host: Seq<char>, endpoint: Seq<char>) -> Seq<char> {
    trim_end(host, '/') + "/rest/v1/"@ + trim_start(endpoint, '/')
}

/// The headers that go with every request.
pub open spec fn json_headers() -> Seq<(Seq<char>, Seq<char>)> {
    seq![("accept"@, "application/json"@), ("content-type"@, "application/json"@)]
}

/// The query parameters with a filter expression in front, where one is given.
/// The expression is handed on as it is.
pub open spec fn with_filter(filter: Option<Seq<char>>) -> Seq<(Seq<char>, Seq<char>)> {
    match filter {
        Some(expression) => seq![("q"@, expression)],
        None => Seq::empty(),
    }
}

/// The query parameters that ask for the page at `offset`.
pub open spec fn page_window(offset: nat) -> Seq<(Seq<char>, Seq<char>)> {
    seq![("offset"@, decimal(offset)), ("limit"@, decimal(PAGE_SIZE as nat))]
}

/// The text of a truth value in a query.
pub open spec fn flag_text(flag: bool) -> Seq<char> {
    if flag {
        "true"@
    } else {
        "false"@
    }
}

/// The characters of an optional string.
pub open spec fn opt_text(text: Option<&str>) -> Option<Seq<char>> {
    match text {
        Some(t) => Some(t@),
        None => None,
    }
}

/// The fields of `update` among the first `n` that are named neither `name`
/// nor `controllerId`.
pub open spec fn other_fields_upto(update: Seq<(Seq<char>, Seq<char>)>, n: int) -> Seq<
    (Seq<char>, Seq<char>),
>
    decreases n,
{
    if n <= 0 {
        Seq::empty()
    } else if update[n - 1].0 == "name"@ || update[n - 1].0 == "controllerId"@ {
        other_fields_upto(update, n - 1)
    } else {
        other_fields_upto(update, n - 1).push(update[n - 1])
    }
}

/// The body that updates a device: the fields of `update`, with the name and
/// the controller identifier of the device in place of any that `update` gives.
pub open spec fn merged_fields(
    update: Seq<(Seq<char>, Seq<char>)>,
    name: Seq<char>,
    controller_id: Seq<char>,
) -> Seq<(Seq<char>, Seq<char>)> {
    other_fields_upto(update, update.len() as int).push(("name"@, name)).push(
        ("controllerId"@, controller_id),
    )
}

/// The client of the management API of one server.
#[derive(Debug)]
pub struct HawkbitMgmtClient {
    config: HawkbitConfig,
    default_headers: Vec<Param>,
}

/// What a [`HawkbitMgmtClient`] holds.
pub struct ClientView {
    pub config: HawkbitConfigView,
    pub headers: Seq<(Seq<char>, Seq<char>)>,
}

impl View for HawkbitMgmtClient {
    type V = ClientView;

    closed spec fn view(&self) -> ClientView {
        ClientView { config: self.config@, headers: param_views(self.default_headers@) }
    }
}

/// The request with `method` for `endpoint` on the server of `client`.
pub open spec fn request_to(
    client: ClientView,
    method: Method,
    endpoint: Seq<char>,
    query: Seq<(Seq<char>, Seq<char>)>,
    payload: PayloadView,
) -> RequestView {
    RequestView { method, url: url_for(client.config.host, endpoint), query, payload }
}

pub(crate) fn bool_text(flag: bool) -> (text: &'static str)
    ensures
        text@ == flag_text(flag),
{
    if flag {
        "true"
    } else {
        "false"
    }
}

pub(crate) fn filter_params(filter: Option<&str>) -> (params: Vec<Param>)
    ensures
        param_views(params@) == with_filter(opt_text(filter)),
{
    let mut params: Vec<Param> = Vec::new();
    assert(param_views(params@) =~= Seq::empty());
    match filter {
        Some(expression) => {
            push_param(&mut params, "q", expression);
            assert(param_views(params@) =~= seq![("q"@, expression@)]);
        },
        None => {},
    }
    params
}

pub(crate) fn push_page_window(params: &mut Vec<Param>, offset: usize)
    ensures
        param_views(final(params)@) == param_views(old(params)@) + page_window(offset as nat),
{
    let at = u64_to_decimal(offset as u64);
    let limit = u64_to_decimal(PAGE_SIZE as u64);
    push_param(params, "offset", at.as_str());
    push_param(params, "limit", limit.as_str());
    assert(param_views(params@) =~= param_views(old(params)@) + page_window(offset as nat));
}

impl HawkbitMgmtClient {
    /// A client for the server that `config` names. Every request asks for
    /// JSON and sends JSON.
    pub fn from_config(config: &HawkbitConfig) -> (client: Self)
        ensures
            client@.config == config@,
            client@.headers == json_headers(),
    {
        let mut headers: Vec<Param> = Vec::new();
        assert(param_views(headers@) =~= Seq::empty());
        push_param(&mut headers, "accept", "application/json");
        push_param(&mut headers, "content-type", "application/json");
        assert(param_views(headers@) =~= json_headers());
        HawkbitMgmtClient { config: config.clone(), default_headers: headers }
    }

    /// The settings the client was made with.
    pub fn config(&self) -> (config: &HawkbitConfig)
        ensures
            config@ == self@.config,
    {
        &self.config
    }

    /// The headers that go with every request.
    pub fn default_headers(&self) -> (headers: &Vec<Param>)
        ensures
            param_views(headers@) == self@.headers,
    {
        &self.default_headers
    }

    /// The address of `endpoint` on the server.
    pub fn build_url(&self, endpoint: &str) -> (url: String)
        ensures
            url@ == url_for(self@.config.host, endpoint@),
    {
        let mut url = trim_end_char(self.config.host(), '/').to_owned();
        url.append("/rest/v1/");
        url.append(trim_start_char(endpoint, '/'));
        url
    }

    /// A request that reads `endpoint`.
    pub fn get(&self, endpoint: &str, query_params: Option<Vec<Param>>) -> (request: Request)
        ensures
            request@ == request_to(
                self@,
                Method::Get,
                endpoint@,
                match query_params {
                    Some(params) => param_views(params@),
                    None => Seq::empty(),
                },
                PayloadView::Empty,
            ),
    {
        let query = match query_params {
            Some(params) => params,
            None => {
                let empty: Vec<Param> = Vec::new();
                assert(param_views(empty@) =~= Seq::empty());
                empty
            },
        };
        Request { method: Method::Get, url: self.build_url(endpoint), query, payload: Payload::Empty }
    }

    /// A request that deletes `endpoint`.
    pub fn delete(&self, endpoint: &str, query_params: Option<Vec<Param>>) -> (request: Request)
        ensures
            request@ == request_to(
                self@,
                Method::Delete,
                endpoint@,
                match query_params {
                    Some(params) => param_views(params@),
                    None => Seq::empty(),
                },
                PayloadView::Empty,
            ),
    {
        let query = match query_params {
            Some(params) => params,
            None => {
                let empty: Vec<Param> = Vec::new();
                assert(param_views(empty@) =~= Seq::empty());
                empty
            },
        };
        Request {
            method: Method::Delete,
            url: self.build_url(endpoint),
            query,
            payload: Payload::Empty,
        }
    }

    /// A request that creates what `json_data` describes under `endpoint`.
    pub fn post(&self, endpoint: &str, json_data: Payload) -> (request: Request)
        ensures
            request@ == request_to(self@, Method::Post, endpoint@, Seq::empty(), json_data@),
    {
        let query: Vec<Param> = Vec::new();
        assert(param_views(query@) =~= Seq::empty());
        Request { method: Method::Post, url: self.build_url(endpoint), query, payload: json_data }
    }

    /// A request that replaces `endpoint` by what `json_data` describes.
    pub fn put(&self, endpoint: &str, json_data: Payload) -> (request: Request)
        ensures
            request@ == request_to(self@, Method::Put, endpoint@, Seq::empty(), json_data@),
    {
        let query: Vec<Param> = Vec::new();
        assert(param_views(query@) =~= Seq::empty());
        Request { method: Method::Put, url: self.build_url(endpoint), query, payload: json_data }
    }
}

} // verus!
