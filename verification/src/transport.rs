//! The transport adapter: what is sent and what comes back, as plain values.
//!
//! [`prepare`] builds the request of an operation and attaches the header that
//! identifies the library; [`accept`] judges what came back for it. Sending the
//! request is the caller's part.

use crate::error::{ClientError, ClientErrorView, ClientResult, RequestError, TransportErrorKind};
use crate::json::{json_document, parse};
use vstd::prelude::*;

verus! {

/// The method of a request.
#[derive(Debug, Clone, Copy, PartialEq, Eq, Structural)]
pub enum Method {
    Get,
    Post,
}

impl Method {
    /// The method as it is written in a request.
    pub open spec fn spec_as_str(self) -> Seq<char> {
        match self {
            Method::Get => "GET"@,
            Method::Post => "POST"@,
        }
    }

    /// The method as it is written in a request.
    pub fn as_str(&self) -> (r: &'static str)
        ensures
            r@ == self.spec_as_str(),
    {
        match self {
            Method::Get => "GET",
            Method::Post => "POST",
        }
    }
}

/// One header of a request.
#[derive(Debug, PartialEq, Eq)]
pub struct Header {
    pub name: String,
    pub value: String,
}

/// The mathematical value of a [`Header`].
pub struct HeaderView {
    pub name: Seq<char>,
    pub value: Seq<char>,
}

impl View for Header {
    type V = HeaderView;

    open spec fn view(&self) -> HeaderView {
        HeaderView { name: self.name@, value: self.value@ }
    }
}

/// A request, ready to be sent.
#[derive(Debug, PartialEq, Eq)]
pub struct Request {
    pub method: Method,
    /// The full address: the base address of the service and the path.
    pub uri: String,
    pub headers: Vec<Header>,
    /// The bytes of the body; none where the operation sends no body.
    pub body: Vec<u8>,
}

/// The mathematical value of a [`Request`].
pub struct RequestView {
    pub method: Method,
    pub uri: Seq<char>,
    pub headers: Seq<HeaderView>,
    pub body: Seq<u8>,
}

impl View for Request {
    type V = RequestView;

    open spec fn view(&self) -> RequestView {
        RequestView {
            method: self.method,
            uri: self.uri@,
            headers: self.headers@.map_values(|header: Header| header@),
            body: self.body@,
        }
    }
}

/// What the server answered.
#[derive(Debug, PartialEq, Eq)]
pub struct Response {
    pub status: u16,
    /// The bytes of the body. They are read only where the status is a success.
    pub body: Vec<u8>,
}

/// The mathematical value of a [`Response`].
pub struct ResponseView {
    pub status: u16,
    pub body: Seq<u8>,
}

impl View for Response {
    type V = ResponseView;

    open spec fn view(&self) -> ResponseView {
        ResponseView { status: self.status, body: self.body@ }
    }
}

/// The value of the `User-Agent` header of every request: the name of the
/// library and its version.
pub open spec fn user_agent_text() -> Seq<char> {
    "x0rs / 0.1.0"@
}

/// The header that identifies the library.
pub open spec fn user_agent_header() -> HeaderView {
    HeaderView { name: "User-Agent"@, value: user_agent_text() }
}

/// The header that authenticates a request with `token`.
pub open spec fn authorization_header(token: Seq<char>) -> HeaderView {
    HeaderView { name: "Authorization"@, value: "Bearer "@ + token }
}

/// The headers of a request: the one that identifies the library, then the
/// bearer credential where the operation is authenticated.
pub open spec fn headers_for(token: Option<Seq<char>>) -> Seq<HeaderView> {
    match token {
        Some(token) => seq![user_agent_header(), authorization_header(token)],
        None => seq![user_agent_header()],
    }
}

/// Whether a header value may hold the byte.
pub open spec fn header_byte_accepted(byte: u8) -> bool {
    (byte >= 32 && byte != 127) || byte == 9
}

/// Whether the bytes are accepted as the value of a header.
pub open spec fn header_value_accepted(bytes: Seq<u8>) -> bool {
    forall|i: int| 0 <= i < bytes.len() ==> header_byte_accepted(#[trigger] bytes[i])
}

/// Whether `http::Uri` accepts the text as a URI.
pub uninterp spec fn uri_accepted(text: Seq<char>) -> bool;

/// Parses the text with `http::Uri::from_str` and tells whether that succeeded.
/// The answer depends on the text alone, and [`uri_accepted`] is its name.
#[verifier::external_body]
fn uri_is_accepted(text: &str) -> (accepted: bool)
    ensures
        accepted == uri_accepted(text@),
{
    text.parse::<http::Uri>().is_ok()
}

/// Validates the bytes with `http::HeaderValue::from_bytes` and tells whether
/// that succeeded. The source accepts the bytes where each of them is a tab, or
/// is at least 32 and not 127.
#[verifier::external_body]
fn header_value_is_accepted(bytes: &[u8]) -> (accepted: bool)
    ensures
        accepted == header_value_accepted(bytes@),
{
    http::HeaderValue::from_bytes(bytes).is_ok()
}

/// The view of an optional text.
pub open spec fn text_option_view(text: Option<&str>) -> Option<Seq<char>> {
    match text {
        Some(text) => Some(text@),
        None => None,
    }
}

/// The view of the result of building a request.
pub open spec fn request_result_view(result: ClientResult<Request>) -> Result<RequestView, ClientErrorView> {
    match result {
        Ok(request) => Ok(request@),
        Err(error) => Err(error@),
    }
}

/// The view of what came back for a request.
pub open spec fn outcome_view(outcome: Result<Response, TransportErrorKind>) -> Result<ResponseView, TransportErrorKind> {
    match outcome {
        Ok(response) => Ok(response@),
        Err(kind) => Err(kind),
    }
}

/// The request that [`prepare`] builds, or the reason for which it cannot be
/// built. The address is judged first, then the credential.
pub open spec fn prepared(method: Method, uri: Seq<char>, token: Option<Seq<char>>, body: Seq<u8>) -> Result<RequestView, ClientErrorView> {
    if !uri_accepted(uri) {
        Err(ClientErrorView::HttpError(RequestError::InvalidUri))
    } else if token is Some && !header_value_accepted(
        vstd::utf8::encode_utf8(authorization_header(token->0).value),
    ) {
        Err(ClientErrorView::HttpError(RequestError::InvalidHeaderValue))
    } else {
        Ok(RequestView { method, uri, headers: headers_for(token), body })
    }
}

/// The text that identifies the library in the `User-Agent` header.
pub fn user_agent() -> (r: String)
    ensures
        r@ == user_agent_text(),
{
    "x0rs / 0.1.0".to_owned()
}

/// Builds the request for `method` on the address `uri`, with the bearer
/// credential `token` where there is one, and with `body`. Every request
/// carries the header that identifies the library.
pub fn prepare(method: Method, uri: String, token: Option<&str>, body: Vec<u8>) -> (r: ClientResult<Request>)
    ensures
        request_result_view(r) == prepared(method, uri@, text_option_view(token), body@),
{
    if !uri_is_accepted(uri.as_str()) {
        return Err(ClientError::HttpError(RequestError::InvalidUri));
    }
    let mut headers: Vec<Header> = Vec::new();
    headers.push(Header { name: "User-Agent".to_owned(), value: user_agent() });
    if let Some(token) = token {
        let mut value = "Bearer ".to_owned();
        value.append(token);
        if !header_value_is_accepted(value.as_str().as_bytes()) {
            return Err(ClientError::HttpError(RequestError::InvalidHeaderValue));
        }
        headers.push(Header { name: "Authorization".to_owned(), value });
    }
    let request = Request { method, uri, headers, body };
    assert(request@.headers =~= headers_for(text_option_view(token)));
    Ok(request)
}

/// Whether `status` is a success: 200, and 201 as well where the operation
/// creates something.
pub open spec fn success(status: u16, creation: bool) -> bool {
    status == 200 || (creation && status == 201)
}

/// The document that [`accept`] hands out, or the failure that it reports.
pub open spec fn accepted(outcome: Result<ResponseView, TransportErrorKind>, creation: bool) -> Result<serde_json::Value, ClientErrorView> {
    match outcome {
        Err(kind) => Err(ClientErrorView::IsahcError(kind)),
        Ok(response) => if !success(response.status, creation) {
            Err(ClientErrorView::UnexpectedStatus(response.status))
        } else {
            match json_document(response.body) {
                Ok(document) => Ok(document),
                Err(text) => Err(ClientErrorView::SerdeJsonError(text)),
            }
        },
    }
}

/// Tells whether `status` is a success of an operation; `creation` says
/// whether the operation creates something. The body of a response needs to be
/// read only where this holds.
pub fn is_success(status: u16, creation: bool) -> (r: bool)
    ensures
        r == success(status, creation),
{
    status == 200 || (creation && status == 201)
}

/// Judges what came back for a request: a failure of the transport is passed
/// on, a status that is no success is reported with its code, and the body of
/// a success is read as a JSON document.
pub fn accept(outcome: Result<Response, TransportErrorKind>, creation: bool) -> (r: Result<serde_json::Value, ClientError>)
    ensures
        match r {
            Ok(document) => accepted(outcome_view(outcome), creation) == Ok::<serde_json::Value, ClientErrorView>(document),
            Err(error) => accepted(outcome_view(outcome), creation) == Err::<serde_json::Value, ClientErrorView>(error@),
        },
{
    match outcome {
        Err(kind) => Err(ClientError::IsahcError(kind)),
        Ok(response) => {
            if !is_success(response.status, creation) {
                Err(ClientError::UnexpectedStatus(response.status))
            } else {
                match parse(response.body.as_slice()) {
                    Ok(document) => Ok(document),
                    Err(text) => Err(ClientError::SerdeJsonError(text)),
                }
            }
        },
    }
}

} // verus!
