//! Requests for the shell to perform, and what it reports back.

use vstd::prelude::*;
use vstd::string::StringExecFns;
use crate::text::{option_text, starts_with};

verus! {

/// How a request is made.
#[derive(Clone, Copy, Debug, PartialEq, Eq, Structural)]
pub enum Method {
    Get,
    Post,
}

/// A named value: a header, or a field of a form.
pub struct Field {
    pub name: String,
    pub value: String,
}

impl View for Field {
    type V = (Seq<char>, Seq<char>);

    open spec fn view(&self) -> (Seq<char>, Seq<char>) {
        (self.name@, self.value@)
    }
}

impl Field {
    /// The field `name` holding `value`.
    pub fn new(name: &str, value: &str) -> (f: Field)
        ensures
            f@ == (name@, value@),
    {
        Field { name: String::from_str(name), value: String::from_str(value) }
    }
}

/// The fields of `fields`, in order, each as a pair of name and value.
pub open spec fn fields_view(fields: Seq<Field>) -> Seq<(Seq<char>, Seq<char>)> {
    Seq::new(fields.len(), |i: int| fields[i]@)
}

/// How many seconds a request may take before it is given up.
pub const REQUEST_TIMEOUT_SECONDS: u64 = 30;

/// One HTTPS request. The form, if not empty, is sent URL-encoded as the
/// request's body. A request that has no answer after `timeout_seconds`
/// is given up and reported as timed out.
pub struct HttpRequest {
    pub method: Method,
    pub url: String,
    pub headers: Vec<Field>,
    pub form: Vec<Field>,
    pub timeout_seconds: u64,
}

/// The mathematical content of an [`HttpRequest`].
pub struct RequestContent {
    pub method: Method,
    pub url: Seq<char>,
    pub headers: Seq<(Seq<char>, Seq<char>)>,
    pub form: Seq<(Seq<char>, Seq<char>)>,
    pub timeout_seconds: u64,
}

/// Whether `url` is to be fetched over HTTPS.
pub open spec fn is_https(url: Seq<char>) -> bool {
    "https://"@.is_prefix_of(url)
}

impl View for HttpRequest {
    type V = RequestContent;

    open spec fn view(&self) -> RequestContent {
        RequestContent {
            method: self.method,
            url: self.url@,
            headers: fields_view(self.headers@),
            form: fields_view(self.form@),
            timeout_seconds: self.timeout_seconds,
        }
    }
}

impl HttpRequest {
    /// Whether the request goes over HTTPS. One that does not is never
    /// to be sent.
    pub fn uses_https(&self) -> (b: bool)
        ensures
            b == is_https(self@.url),
    {
        starts_with(self.url.as_str(), "https://")
    }
}

/// How a request ended.
pub enum HttpOutcome {
    /// The provider answered. `body` is `None` where the answer's body
    /// could not be read.
    Response { status: u16, body: Option<String> },
    /// No answer came within the time allowed.
    TimedOut,
    /// The request could not be made, or broke off; `detail` says why.
    Failed { detail: String },
}

/// The mathematical content of an [`HttpOutcome`].
pub enum OutcomeContent {
    Response { status: u16, body: Option<Seq<char>> },
    TimedOut,
    Failed { detail: Seq<char> },
}

impl View for HttpOutcome {
    type V = OutcomeContent;

    open spec fn view(&self) -> OutcomeContent {
        match self {
            HttpOutcome::Response { status, body } => OutcomeContent::Response {
                status: *status,
                body: option_text(*body),
            },
            HttpOutcome::TimedOut => OutcomeContent::TimedOut,
            HttpOutcome::Failed { detail } => OutcomeContent::Failed { detail: detail@ },
        }
    }
}

/// Whether `status` reports success: the codes from 200 to 299.
pub open spec fn is_success(status: u16) -> bool {
    200 <= status <= 299
}

/// Whether `status` reports success.
pub fn status_is_success(status: u16) -> (b: bool)
    ensures
        b == is_success(status),
{
    200 <= status && status <= 299
}

} // verus!
