//! The two halves of an exchange with the server: the request to send, and
//! what the answer to it means.
use crate::error::RancherError;
use crate::json::{Json, JsonView};
use crate::parse::parsed;
use vstd::prelude::*;

verus! {

/// The method of a request.
#[derive(Debug, Clone, Copy, PartialEq, Eq, Structural)]
pub enum Method {
    Get,
    Post,
}

/// A request for the transport to perform.
#[derive(Debug, Clone, PartialEq, Eq)]
pub struct Request {
    /// The method.
    pub method: Method,
    /// The address: the base of the API followed by the path.
    pub url: String,
    /// The header lines, in the order in which they are sent.
    pub headers: Vec<String>,
    /// The body, where the request carries one.
    pub body: Option<String>,
    /// Whether an answer that calls itself an error fails the request.
    pub checked: bool,
}

/// The mathematical value of a [`Request`].
pub struct RequestView {
    pub method: Method,
    pub url: Seq<char>,
    pub headers: Seq<Seq<char>>,
    pub body: Option<Seq<char>>,
    pub checked: bool,
}

/// How the transfer of a request ended.
#[derive(Debug, Clone, PartialEq, Eq)]
pub enum Transfer {
    /// The server answered; the body of its answer.
    Completed(String),
    /// No answer came.
    Failed,
}

impl View for Request {
    type V = RequestView;

    open spec fn view(&self) -> RequestView {
        RequestView {
            method: self.method,
            url: self.url@,
            headers: Seq::new(self.headers.len() as nat, |i: int| self.headers[i]@),
            body: match self.body {
                Some(text) => Some(text@),
                None => None,
            },
            checked: self.checked,
        }
    }
}

/// Whether an answer calls itself an error: its member `baseType` is the text
/// `error`.
pub open spec fn is_error(payload: JsonView) -> bool {
    payload.member_text("baseType"@) == Some("error"@)
}

/// The decoded body of a transfer: a transfer that failed is a transport
/// error, and a body that is no JSON text is a decode error.
pub open spec fn received(transfer: Transfer) -> Result<JsonView, RancherError> {
    match transfer {
        Transfer::Failed => Err(RancherError::Transport),
        Transfer::Completed(body) => match parsed(body@) {
            Some(payload) => Ok(payload),
            None => Err(RancherError::Decode),
        },
    }
}

/// Decodes the body that a transfer brought.
pub fn receive(transfer: &Transfer) -> (r: Result<Json, RancherError>)
    ensures
        match r {
            Ok(payload) => received(*transfer) == Ok::<JsonView, RancherError>(payload@),
            Err(e) => received(*transfer) == Err::<JsonView, RancherError>(e),
        },
{
    match transfer {
        Transfer::Failed => Err(RancherError::Transport),
        Transfer::Completed(body) => match Json::parse(body.as_str()) {
            Some(payload) => Ok(payload),
            None => Err(RancherError::Decode),
        },
    }
}

impl Request {
    /// Whether the request is failed by the answer `payload`.
    pub open spec fn rejects(&self, payload: JsonView) -> bool {
        self.checked && is_error(payload)
    }

    /// Judges the decoded answer to this request: an answer that the request
    /// rejects is an error that carries it, any other is handed back.
    pub fn check(&self, payload: Json) -> (r: Result<Json, RancherError>)
        ensures
            match r {
                Ok(j) => j == payload && !self.rejects(payload@),
                Err(e) => e == RancherError::Api(payload) && self.rejects(payload@),
            },
    {
        if !self.checked {
            return Ok(payload);
        }
        let error = String::from_str("error");
        let failed = match payload.get_str("baseType") {
            Some(base_type) => *base_type == error,
            None => false,
        };
        if failed {
            Err(RancherError::Api(payload))
        } else {
            Ok(payload)
        }
    }

    /// What the end of the transfer means for this request: the decoded body,
    /// judged as [`Request::check`] does, or the error that kept it from being
    /// decoded.
    pub fn read(&self, transfer: &Transfer) -> (r: Result<Json, RancherError>)
        ensures
            match received(*transfer) {
                Err(e) => r == Err::<Json, RancherError>(e),
                Ok(payload) => if self.rejects(payload) {
                    r matches Err(RancherError::Api(j)) && j@ == payload
                } else {
                    r matches Ok(j) && j@ == payload
                },
            },
    {
        match receive(transfer) {
            Ok(payload) => self.check(payload),
            Err(e) => Err(e),
        }
    }

    /// Whether the exchange succeeded: the transfer completed and its answer
    /// was accepted.
    pub fn succeeded(&self, transfer: &Transfer) -> (b: bool)
        ensures
            b == (received(*transfer) matches Ok(payload) && !self.rejects(payload)),
    {
        self.read(transfer).is_ok()
    }
}

} // verus!
