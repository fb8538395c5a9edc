//! The error that every fallible operation of the crate reports.

use vstd::prelude::*;
use vstd::string::StringExecFns;

use crate::text::append_decimal;
use crate::text::decimal;

verus! {

/// A failure, described by a message.
#[derive(Debug)]
pub struct HawkbitError {
    msg: String,
}

pub type HawkbitResult<T> = Result<T, HawkbitError>;

impl View for HawkbitError {
    type V = Seq<char>;

    closed spec fn view(&self) -> Seq<char> {
        self.msg@
    }
}

/// The message of the failure that a response with a refused status code stands for.
pub open spec fn http_error_text(status: u16, body: Seq<char>) -> Seq<char> {
    "HTTP error "@ + decimal(status as nat) + ": "@ + body
}

impl HawkbitError {
    /// A failure with the given message.
    pub fn new(msg: &str) -> (e: Self)
        ensures
            e@ == msg@,
    {
        HawkbitError { msg: msg.to_owned() }
    }

    /// The failure that a response with a refused status code stands for: it
    /// carries the status code and the response body.
    pub fn http(status: u16, body: &str) -> (e: Self)
        ensures
            e@ == http_error_text(status, body@),
    {
        let mut msg = "HTTP error ".to_owned();
        append_decimal(&mut msg, status as u64);
        msg.append(": ");
        msg.append(body);
        HawkbitError { msg }
    }

    /// The message.
    pub fn message(&self) -> (m: &str)
        ensures
            m@ == self@,
    {
        self.msg.as_str()
    }

    /// The message, as an owned string.
    pub fn to_string(&self) -> (s: String)
        ensures
            s@ == self@,
    {
        self.msg.clone()
    }
}

} // verus!
