//! What a request to the management API is made of, and which answers count
//! as success.

use vstd::prelude::*;

use crate::error::http_error_text;
use crate::error::HawkbitError;
use crate::error::HawkbitResult;

verus! {

/// The HTTP method of a request.
#[derive(Debug, Clone, Copy, PartialEq, Eq, Structural)]
pub enum Method {
    Get,
    Delete,
    Post,
    Put,
}

/// How a successful answer is to be read.
#[derive(Debug, Clone, Copy, PartialEq, Eq, Structural)]
pub enum Reply {
    /// The answer has a body.
    Content,
    /// The answer has no body.
    NoContent,
}

/// A name with its value: a query parameter, a header, or a field of a body.
#[derive(Debug)]
pub struct Param {
    pub name: String,
    pub value: String,
}

impl View for Param {
    type V = (Seq<char>, Seq<char>);

    open spec fn view(&self) -> (Seq<char>, Seq<char>) {
        (self.name@, self.value@)
    }
}

/// The names and values of a list of parameters.
pub open spec fn param_views(params: Seq<Param>) -> Seq<(Seq<char>, Seq<char>)> {
    Seq::new(params.len(), |i: int| params[i]@)
}

/// One entry of the body that assigns a bundle to a device.
#[derive(Debug)]
pub struct Assignment {
    pub id: u64,
    pub assignment_type: String,
}

impl View for Assignment {
    type V = (u64, Seq<char>);

    open spec fn view(&self) -> (u64, Seq<char>) {
        (self.id, self.assignment_type@)
    }
}

/// The bundles and assignment types of a list of assignments.
pub open spec fn assignment_views(entries: Seq<Assignment>) -> Seq<(u64, Seq<char>)> {
    Seq::new(entries.len(), |i: int| entries[i]@)
}

/// The body of a request, before it is written as JSON.
#[derive(Debug)]
pub enum Payload {
    /// No body.
    Empty,
    /// An array with one object per assignment, each with `id` and `type`.
    Assignments(Vec<Assignment>),
    /// An object with one string member per field.
    Fields(Vec<Param>),
}

/// What a [`Payload`] holds.
pub enum PayloadView {
    Empty,
    Assignments(Seq<(u64, Seq<char>)>),
    Fields(Seq<(Seq<char>, Seq<char>)>),
}

impl View for Payload {
    type V = PayloadView;

    open spec fn view(&self) -> PayloadView {
        match self {
            Payload::Empty => PayloadView::Empty,
            Payload::Assignments(entries) => PayloadView::Assignments(assignment_views(entries@)),
            Payload::Fields(fields) => PayloadView::Fields(param_views(fields@)),
        }
    }
}

/// A request, ready to be sent with basic authentication.
#[derive(Debug)]
pub struct Request {
    pub method: Method,
    pub url: String,
    pub query: Vec<Param>,
    pub payload: Payload,
}

/// What a [`Request`] holds.
pub struct RequestView {
    pub method: Method,
    pub url: Seq<char>,
    pub query: Seq<(Seq<char>, Seq<char>)>,
    pub payload: PayloadView,
}

impl View for Request {
    type V = RequestView;

    open spec fn view(&self) -> RequestView {
        RequestView {
            method: self.method,
            url: self.url@,
            query: param_views(self.query@),
            payload: self.payload@,
        }
    }
}

/// How an answer with status code `status` to a request with `method` is to
/// be read, or `None` where the status code means failure. Reading succeeds
/// with 200 only, creating with 200 and 201, replacing and deleting with 200
/// and 204.
pub open spec fn reply_for(method: Method, status: u16) -> Option<Reply> {
    match method {
        Method::Get => if status == 200 {
            Some(Reply::Content)
        } else {
            None
        },
        Method::Post => if status == 200 || status == 201 {
            Some(Reply::Content)
        } else {
            None
        },
        Method::Put | Method::Delete => if status == 200 {
            Some(Reply::Content)
        } else if status == 204 {
            Some(Reply::NoContent)
        } else {
            None
        },
    }
}

/// What is reported for a deletion that went through.
pub open spec fn confirmation_text(reply: Reply) -> Seq<char> {
    match reply {
        Reply::Content => "OK"@,
        Reply::NoContent => "No Content"@,
    }
}

/// Appends the parameter `name=value` to `params`.
pub fn push_param(params: &mut Vec<Param>, name: &str, value: &str)
    ensures
        param_views(final(params)@) == param_views(old(params)@).push((name@, value@)),
{
    params.push(Param { name: name.to_owned(), value: value.to_owned() });
    assert(param_views(params@) =~= param_views(old(params)@).push((name@, value@)));
}

/// Decides how an answer is to be read from its status code.
pub fn expected_reply(method: Method, status: u16) -> (reply: Option<Reply>)
    ensures
        reply == reply_for(method, status),
{
    match method {
        Method::Get => if status == 200 {
            Some(Reply::Content)
        } else {
            None
        },
        Method::Post => if status == 200 || status == 201 {
            Some(Reply::Content)
        } else {
            None
        },
        Method::Put => if status == 200 {
            Some(Reply::Content)
        } else if status == 204 {
            Some(Reply::NoContent)
        } else {
            None
        },
        Method::Delete => if status == 200 {
            Some(Reply::Content)
        } else if status == 204 {
            Some(Reply::NoContent)
        } else {
            None
        },
    }
}

/// Checks the status code of an answer. A status code outside those that mean
/// success gives a failure that carries the status code and the body.
pub fn check_response(method: Method, status: u16, body: &str) -> (checked: HawkbitResult<Reply>)
    ensures
        match checked {
            Ok(reply) => reply_for(method, status) == Some(reply),
            Err(e) => reply_for(method, status) is None && e@ == http_error_text(status, body@),
        },
{
    match expected_reply(method, status) {
        Some(reply) => Ok(reply),
        None => Err(HawkbitError::http(status, body)),
    }
}

/// What is reported for a deletion that went through.
pub fn delete_confirmation(reply: Reply) -> (text: String)
    ensures
        text@ == confirmation_text(reply),
{
    match reply {
        Reply::Content => "OK".to_owned(),
        Reply::NoContent => "No Content".to_owned(),
    }
}

} // verus!
