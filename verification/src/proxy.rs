//! Request forwarding: what is sent upstream for a call, and what a reply
//! means for the caller. Sending itself is left to the caller.

use crate::text::{decimal_digits, decimal_string, same_text, to_uppercase, uppercased};
use vstd::prelude::*;
use vstd::string::*;

verus! {

/// Seconds after which a forwarded request is given up.
pub const REQUEST_TIMEOUT_SECS: u64 = 60;

/// The lowest response status that counts as a failure.
pub const FIRST_ERROR_STATUS: u16 = 400;

/// The request methods that are forwarded.
#[derive(Clone, Copy, Debug, PartialEq, Eq, Structural)]
pub enum HttpMethod {
    Get,
    Post,
    Put,
    Delete,
    Patch,
}

impl HttpMethod {
    /// The method's name on the wire.
    pub open spec fn name(self) -> Seq<char> {
        match self {
            HttpMethod::Get => "GET"@,
            HttpMethod::Post => "POST"@,
            HttpMethod::Put => "PUT"@,
            HttpMethod::Delete => "DELETE"@,
            HttpMethod::Patch => "PATCH"@,
        }
    }

    /// The method's name on the wire.
    pub fn as_str(self) -> (name: &'static str)
        ensures
            name@ == self.name(),
    {
        match self {
            HttpMethod::Get => "GET",
            HttpMethod::Post => "POST",
            HttpMethod::Put => "PUT",
            HttpMethod::Delete => "DELETE",
            HttpMethod::Patch => "PATCH",
        }
    }
}

/// The method with the given upper-case name, if it is one that is forwarded.
pub open spec fn method_named(upper: Seq<char>) -> Option<HttpMethod> {
    if upper == "GET"@ {
        Some(HttpMethod::Get)
    } else if upper == "POST"@ {
        Some(HttpMethod::Post)
    } else if upper == "PUT"@ {
        Some(HttpMethod::Put)
    } else if upper == "DELETE"@ {
        Some(HttpMethod::Delete)
    } else if upper == "PATCH"@ {
        Some(HttpMethod::Patch)
    } else {
        None
    }
}

/// Why a forwarded call failed.
#[derive(Debug)]
pub enum ProxyError {
    /// The method, given here in upper case, is not one that is forwarded.
    UnsupportedMethod(String),
    /// The request could not be sent or no response arrived in time; the
    /// text says why.
    SendFailed(String),
    /// The response arrived but its body could not be read; the text says
    /// why.
    BodyFailed(String),
    /// Upstream answered with a failure status.
    Upstream { status: u16, body: String },
}

/// The text of the error for an upstream failure: the status in decimal and
/// the response body.
pub open spec fn upstream_text(status: u16, body: Seq<char>) -> Seq<char> {
    "HTTP "@ + decimal_digits(status as nat) + ": "@ + body
}

impl ProxyError {
    /// The text under which the error is reported to the caller.
    pub open spec fn message_text(&self) -> Seq<char> {
        match self {
            ProxyError::UnsupportedMethod(name) => "Unsupported HTTP method: "@ + name@,
            ProxyError::SendFailed(detail) => "Request failed: "@ + detail@,
            ProxyError::BodyFailed(detail) => detail@,
            ProxyError::Upstream { status, body } => upstream_text(*status, body@),
        }
    }

    /// The text under which the error is reported to the caller.
    pub fn message(&self) -> (text: String)
        ensures
            text@ == self.message_text(),
    {
        match self {
            ProxyError::UnsupportedMethod(name) => String::from_str(
                "Unsupported HTTP method: ",
            ).concat(name.as_str()),
            ProxyError::SendFailed(detail) => String::from_str("Request failed: ").concat(
                detail.as_str(),
            ),
            ProxyError::BodyFailed(detail) => detail.clone(),
            ProxyError::Upstream { status, body } => {
                let digits = decimal_string(*status);
                String::from_str("HTTP ").concat(digits.as_str()).concat(": ").concat(
                    body.as_str(),
                )
            },
        }
    }
}

/// The text of an upstream failure holds the status, in decimal, right after
/// its first five characters, and ends with the response body.
pub proof fn upstream_text_holds_status_and_body(status: u16, body: Seq<char>)
    ensures
        upstream_text(status, body).subrange(5, 5 + decimal_digits(status as nat).len() as int)
            == decimal_digits(status as nat),
        upstream_text(status, body).subrange(
            upstream_text(status, body).len() - body.len(),
            upstream_text(status, body).len() as int,
        ) == body,
{
    reveal_strlit("HTTP ");
    reveal_strlit(": ");
    let digits = decimal_digits(status as nat);
    let text = upstream_text(status, body);
    assert("HTTP "@.len() == 5);
    assert(": "@.len() == 2);
    assert(text.len() == 5 + digits.len() + 2 + body.len());
    assert(text.subrange(5, 5 + digits.len() as int) =~= digits);
    assert(text.subrange(text.len() - body.len(), text.len() as int) =~= body);
}

/// Finds the method with the given upper-case name.
pub fn method_from_upper(upper: &str) -> (found: Result<HttpMethod, ProxyError>)
    ensures
        method_named(upper@) matches Some(method) ==> found == Ok::<HttpMethod, ProxyError>(
            method,
        ),
        method_named(upper@) is None ==> (found matches Err(ProxyError::UnsupportedMethod(name))
            && name@ == upper@),
{
    if same_text(upper, "GET") {
        Ok(HttpMethod::Get)
    } else if same_text(upper, "POST") {
        Ok(HttpMethod::Post)
    } else if same_text(upper, "PUT") {
        Ok(HttpMethod::Put)
    } else if same_text(upper, "DELETE") {
        Ok(HttpMethod::Delete)
    } else if same_text(upper, "PATCH") {
        Ok(HttpMethod::Patch)
    } else {
        Err(ProxyError::UnsupportedMethod(String::from_str(upper)))
    }
}

/// Finds the method with the given name, in any letter case.
pub fn parse_method(method: &str) -> (found: Result<HttpMethod, ProxyError>)
    ensures
        method_named(uppercased(method@)) matches Some(m) ==> found == Ok::<
            HttpMethod,
            ProxyError,
        >(m),
        method_named(uppercased(method@)) is None ==> (found matches Err(
            ProxyError::UnsupportedMethod(name),
        ) && name@ == uppercased(method@)),
{
    let upper = to_uppercase(method);
    method_from_upper(upper.as_str())
}

/// One request, ready to be sent upstream.
#[derive(Debug)]
pub struct ForwardRequest {
    pub method: HttpMethod,
    pub url: String,
    /// Seconds after which the request is given up.
    pub timeout_secs: u64,
    /// Value of the content-type header, if one is sent.
    pub content_type: Option<&'static str>,
    pub body: Option<String>,
}

impl ForwardRequest {
    /// The request forwards `url` with `method` under the fixed timeout. With
    /// a body it carries that body, declared as JSON; without one it carries
    /// neither a body nor a content type.
    pub open spec fn forwards(&self, method: HttpMethod, url: Seq<char>, body: Option<Seq<char>>) -> bool {
        &&& self.method == method
        &&& self.url@ == url
        &&& self.timeout_secs == REQUEST_TIMEOUT_SECS
        &&& match body {
            Some(text) => {
                &&& self.body matches Some(sent)
                &&& sent@ == text
                &&& self.content_type matches Some(kind)
                &&& kind@ == "application/json"@
            },
            None => self.body is None && self.content_type is None,
        }
    }
}

/// The text of an optional string.
pub open spec fn optional_text(text: Option<String>) -> Option<Seq<char>> {
    match text {
        Some(t) => Some(t@),
        None => None,
    }
}

/// Builds the request for `url` with a method that is already known.
pub fn request_with(method: HttpMethod, url: String, body: Option<String>) -> (request:
    ForwardRequest)
    ensures
        request.forwards(method, url@, optional_text(body)),
{
    match body {
        Some(text) => ForwardRequest {
            method,
            url,
            timeout_secs: REQUEST_TIMEOUT_SECS,
            content_type: Some("application/json"),
            body: Some(text),
        },
        None => ForwardRequest {
            method,
            url,
            timeout_secs: REQUEST_TIMEOUT_SECS,
            content_type: None,
            body: None,
        },
    }
}

/// Plans one forwarded call: the method is looked up by name, in any letter
/// case; an unknown method is an error and nothing is sent.
pub fn plan_request(method: &str, url: String, body: Option<String>) -> (plan: Result<
    ForwardRequest,
    ProxyError,
>)
    ensures
        method_named(uppercased(method@)) matches Some(m) ==> (plan matches Ok(request)
            && request.forwards(m, url@, optional_text(body))),
        method_named(uppercased(method@)) is None ==> (plan matches Err(
            ProxyError::UnsupportedMethod(name),
        ) && name@ == uppercased(method@)),
{
    match parse_method(method) {
        Ok(found) => Ok(request_with(found, url, body)),
        Err(error) => Err(error),
    }
}

/// Reads a response: a status of 400 or more is an error that carries the
/// status and the body; any other status hands the body on.
pub fn interpret_response(status: u16, text: String) -> (reply: Result<String, ProxyError>)
    ensures
        status >= FIRST_ERROR_STATUS ==> (reply matches Err(
            ProxyError::Upstream { status: s, body },
        ) && s == status && body@ == text@),
        status < FIRST_ERROR_STATUS ==> (reply matches Ok(body) && body@ == text@),
{
    if status >= FIRST_ERROR_STATUS {
        Err(ProxyError::Upstream { status, body: text })
    } else {
        Ok(text)
    }
}

} // verus!
