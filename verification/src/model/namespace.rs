//! Namespaces and their handler.
//!
//! A handler binds the identifier of a namespace to the credential that it
//! currently holds. The identifier is chosen by the caller and is part of the
//! path of every request. A credential that the server issues, on creating the
//! namespace or on resetting its token, replaces the one held; a failure leaves
//! the handler as it was.

use crate::client::{Client, ClientView};
use crate::error::{ClientError, ClientErrorView, ClientResult, TransportErrorKind};
use crate::json::{
    content, encode_text, flag_member, json_text_encoding, mismatch, mismatch_text,
    present_member, spec_flag_member, spec_present_member, spec_text_member, text_member, Content,
};
use crate::transport::{
    accept, accepted, outcome_view, prepare, prepared, request_result_view, text_option_view,
    Method, Request, RequestView, Response, ResponseView,
};
use vstd::prelude::*;
use vstd::utf8::encode_utf8;

verus! {

/// A named partition of the service. The time of its creation, in seconds
/// since the epoch, is there where the service reports it.
#[derive(Debug, PartialEq, Eq)]
pub struct Namespace {
    pub id: String,
    pub active: bool,
    pub created: Option<u64>,
}

/// The mathematical value of a [`Namespace`].
pub struct NamespaceView {
    pub id: Seq<char>,
    pub active: bool,
    pub created: Option<u64>,
}

impl View for Namespace {
    type V = NamespaceView;

    open spec fn view(&self) -> NamespaceView {
        NamespaceView { id: self.id@, active: self.active, created: self.created }
    }
}

impl Namespace {
    /// The namespace that the JSON value describes: an object with the members
    /// `id`, a string, and `active`, a boolean, and with the time of creation
    /// in the member `created`, an unsigned number, where that member is there
    /// and not `null`.
    pub open spec fn spec_from_json(value: serde_json::Value) -> Option<NamespaceView> {
        match (spec_text_member(value, "id"@), spec_flag_member(value, "active"@)) {
            (Some(id), Some(active)) => match spec_present_member(value, "created"@) {
                Some(found) => match content(found) {
                    Content::Unsigned(created) => Some(
                        NamespaceView { id, active, created: Some(created) },
                    ),
                    _ => None,
                },
                None => Some(NamespaceView { id, active, created: None }),
            },
            _ => None,
        }
    }

    /// Reads a namespace from a JSON value. Members that a namespace does not
    /// have are passed over.
    pub fn from_json(value: &serde_json::Value) -> (r: Option<Namespace>)
        ensures
            match r {
                Some(namespace) => Self::spec_from_json(*value) == Some(namespace@),
                None => Self::spec_from_json(*value) is None,
            },
    {
        let id = text_member(value, "id");
        let active = flag_member(value, "active");
        match (id, active) {
            (Some(id), Some(active)) => match present_member(value, "created") {
                Some(found) => match found.as_u64() {
                    Some(created) => Some(Namespace { id, active, created: Some(created) }),
                    None => None,
                },
                None => Some(Namespace { id, active, created: None }),
            },
            _ => None,
        }
    }
}

/// The mathematical value of a [`NamespaceHandler`].
pub struct NamespaceHandlerView {
    pub client: ClientView,
    pub id: Seq<char>,
    pub token: Seq<char>,
}

/// The view of the result of fetching a namespace.
pub open spec fn namespace_result_view(result: ClientResult<Namespace>) -> Result<
    NamespaceView,
    ClientErrorView,
> {
    match result {
        Ok(namespace) => Ok(namespace@),
        Err(error) => Err(error@),
    }
}

/// The path of the namespace `id`, below the prefix of the generation.
pub open spec fn namespace_path(id: Seq<char>) -> Seq<char> {
    "/namespaces/"@ + id
}

/// The path on which the token of the namespace `id` is reset.
pub open spec fn reset_token_path(id: Seq<char>) -> Seq<char> {
    namespace_path(id) + "/resettoken"@
}

/// The body of the request that creates a namespace: a JSON object that holds
/// the invite code in its member `invite`, and no member where there is none.
pub open spec fn invite_body(invite: Option<Seq<char>>) -> Result<Seq<u8>, ClientErrorView> {
    match invite {
        Some(code) => match json_text_encoding(code) {
            Ok(encoded) => Ok(encode_utf8("{\"invite\":"@) + encoded + encode_utf8("}"@)),
            Err(text) => Err(ClientErrorView::SerdeJsonError(text)),
        },
        None => Ok(encode_utf8("{}"@)),
    }
}

/// The request that fetches the namespace: a `GET` on its path, with the
/// credential held as the bearer credential and with no body.
pub open spec fn get_request(handler: NamespaceHandlerView) -> Result<RequestView, ClientErrorView> {
    prepared(
        Method::Get,
        handler.client.endpoint(namespace_path(handler.id)),
        Some(handler.token),
        Seq::empty(),
    )
}

/// The request that creates the namespace: a `POST` on its path, with no
/// credential and with [`invite_body`] as its body. The address is judged
/// before the body is written.
pub open spec fn create_request(handler: NamespaceHandlerView, invite: Option<Seq<char>>) -> Result<
    RequestView,
    ClientErrorView,
> {
    match prepared(
        Method::Post,
        handler.client.endpoint(namespace_path(handler.id)),
        None,
        Seq::empty(),
    ) {
        Ok(request) => match invite_body(invite) {
            Ok(body) => Ok(RequestView { body, ..request }),
            Err(error) => Err(error),
        },
        Err(error) => Err(error),
    }
}

/// The request that resets the token of the namespace: a `POST` on
/// [`reset_token_path`], with the credential held as the bearer credential and
/// with no body.
pub open spec fn reset_token_request(handler: NamespaceHandlerView) -> Result<
    RequestView,
    ClientErrorView,
> {
    prepared(
        Method::Post,
        handler.client.endpoint(reset_token_path(handler.id)),
        Some(handler.token),
        Seq::empty(),
    )
}

/// The namespace that an answer to [`get_request`] holds, or the failure that
/// it amounts to.
pub open spec fn namespace_received(outcome: Result<ResponseView, TransportErrorKind>) -> Result<
    NamespaceView,
    ClientErrorView,
> {
    match accepted(outcome, false) {
        Ok(document) => match Namespace::spec_from_json(document) {
            Some(namespace) => Ok(namespace),
            None => Err(ClientErrorView::SerdeJsonError(mismatch_text())),
        },
        Err(error) => Err(error),
    }
}

/// The token that the server issued in its answer, or the failure that the
/// answer amounts to. The token is the member `token`, a string, of the
/// document; `creation` says whether the answer is one to a creation.
pub open spec fn token_received(
    outcome: Result<ResponseView, TransportErrorKind>,
    creation: bool,
) -> Result<Seq<char>, ClientErrorView> {
    match accepted(outcome, creation) {
        Ok(document) => match spec_text_member(document, "token"@) {
            Some(token) => Ok(token),
            None => Err(ClientErrorView::SerdeJsonError(mismatch_text())),
        },
        Err(error) => Err(error),
    }
}

/// The handler after an answer in which a token may have been issued: it holds
/// the token that was issued, and is as it was where none was.
pub open spec fn handler_after(
    handler: NamespaceHandlerView,
    outcome: Result<ResponseView, TransportErrorKind>,
    creation: bool,
) -> NamespaceHandlerView {
    match token_received(outcome, creation) {
        Ok(token) => NamespaceHandlerView { token, ..handler },
        Err(_) => handler,
    }
}

/// What an operation that issues a token returns for an answer.
pub open spec fn issue_result(
    outcome: Result<ResponseView, TransportErrorKind>,
    creation: bool,
) -> Result<(), ClientErrorView> {
    match token_received(outcome, creation) {
        Ok(_) => Ok(()),
        Err(error) => Err(error),
    }
}

/// The view of the result of an operation that hands out nothing.
pub open spec fn unit_result_view(result: ClientResult<()>) -> Result<(), ClientErrorView> {
    match result {
        Ok(_) => Ok(()),
        Err(error) => Err(error@),
    }
}

/// Writes the body of the request that creates a namespace, around the JSON
/// string `encoded` that holds the invite code, where there is one.
pub fn frame_invite(encoded: Option<&[u8]>) -> (r: Vec<u8>)
    ensures
        r@ == match encoded {
            Some(encoded) => encode_utf8("{\"invite\":"@) + encoded@ + encode_utf8("}"@),
            None => encode_utf8("{}"@),
        },
{
    match encoded {
        Some(encoded) => {
            let mut body = "{\"invite\":".as_bytes_vec();
            let ghost head = body@;
            body.extend_from_slice(encoded);
            assert(body@ =~= head + encoded@);
            let ghost middle = body@;
            body.extend_from_slice("}".as_bytes());
            assert(body@ =~= middle + encode_utf8("}"@));
            body
        },
        None => "{}".as_bytes_vec(),
    }
}

/// The handler of one namespace: its identifier, the credential held for it,
/// and the client that it belongs to.
pub struct NamespaceHandler<'a> {
    id: String,
    token: String,
    client: &'a Client,
}

impl<'a> View for NamespaceHandler<'a> {
    type V = NamespaceHandlerView;

    closed spec fn view(&self) -> NamespaceHandlerView {
        NamespaceHandlerView { client: self.client@, id: self.id@, token: self.token@ }
    }
}

impl<'a> NamespaceHandler<'a> {
    pub(crate) fn new(id: &str, token: &str, client: &'a Client) -> (r: Self)
        ensures
            r@ == (NamespaceHandlerView { client: client@, id: id@, token: token@ }),
    {
        NamespaceHandler { id: id.to_owned(), token: token.to_owned(), client }
    }

    /// The identifier of the namespace.
    pub fn id(&self) -> (r: &str)
        ensures
            r@ == self@.id,
    {
        self.id.as_str()
    }

    /// The credential that the handler holds at present.
    pub fn current_token(&self) -> (r: &str)
        ensures
            r@ == self@.token,
    {
        self.token.as_str()
    }

    /// The handler with `token` as its credential. Nothing is sent.
    pub fn token(self, token: &str) -> (r: NamespaceHandler<'a>)
        ensures
            r@ == (NamespaceHandlerView { token: token@, ..self@ }),
    {
        let mut handler = self;
        handler.token = token.to_owned();
        handler
    }

    fn path(&self) -> (r: String)
        ensures
            r@ == namespace_path(self@.id),
    {
        let mut path = "/namespaces/".to_owned();
        path.append(self.id.as_str());
        path
    }

    /// Builds the request that fetches the namespace. The credential is sent
    /// as it is held, an empty one too.
    pub fn get_request(&self) -> (r: ClientResult<Request>)
        ensures
            request_result_view(r) == get_request(self@),
    {
        let path = self.path();
        prepare(
            Method::Get,
            self.client.endpoint(path.as_str()),
            Some(self.token.as_str()),
            Vec::new(),
        )
    }

    /// Takes what came back for the request of
    /// [`NamespaceHandler::get_request`] and hands out the namespace that the
    /// server sent.
    pub fn get(&self, outcome: Result<Response, TransportErrorKind>) -> (r: ClientResult<Namespace>)
        ensures
            namespace_result_view(r) == namespace_received(outcome_view(outcome)),
    {
        match accept(outcome, false) {
            Ok(document) => match Namespace::from_json(&document) {
                Some(namespace) => Ok(namespace),
                None => Err(mismatch()),
            },
            Err(error) => Err(error),
        }
    }

    /// Builds the request that creates the namespace, with the invite code
    /// where there is one.
    pub fn create_request(&self, invite: Option<&str>) -> (r: ClientResult<Request>)
        ensures
            request_result_view(r) == create_request(self@, text_option_view(invite)),
    {
        let path = self.path();
        let request = match prepare(
            Method::Post,
            self.client.endpoint(path.as_str()),
            None,
            Vec::new(),
        ) {
            Ok(request) => request,
            Err(error) => {
                return Err(error);
            },
        };
        let body = match invite {
            Some(code) => match encode_text(code) {
                Ok(encoded) => frame_invite(Some(encoded.as_slice())),
                Err(text) => {
                    return Err(ClientError::SerdeJsonError(text));
                },
            },
            None => frame_invite(None),
        };
        Ok(Request { method: request.method, uri: request.uri, headers: request.headers, body })
    }

    /// Takes what came back for the request of
    /// [`NamespaceHandler::create_request`]. On a success the handler holds
    /// the token that the server issued; on a failure it is as it was.
    pub fn create(&mut self, outcome: Result<Response, TransportErrorKind>) -> (r: ClientResult<()>)
        ensures
            unit_result_view(r) == issue_result(outcome_view(outcome), true),
            final(self)@ == handler_after(old(self)@, outcome_view(outcome), true),
            r is Err ==> *final(self) == *old(self),
    {
        self.receive_token(outcome, true)
    }

    /// Builds the request that resets the token of the namespace, under the
    /// credential that the handler holds.
    pub fn reset_token_request(&self) -> (r: ClientResult<Request>)
        ensures
            request_result_view(r) == reset_token_request(self@),
    {
        let mut path = self.path();
        path.append("/resettoken");
        prepare(
            Method::Post,
            self.client.endpoint(path.as_str()),
            Some(self.token.as_str()),
            Vec::new(),
        )
    }

    /// Takes what came back for the request of
    /// [`NamespaceHandler::reset_token_request`]. On a success the handler
    /// holds the new token; on a failure it is as it was.
    pub fn reset_token(&mut self, outcome: Result<Response, TransportErrorKind>) -> (r: ClientResult<()>)
        ensures
            unit_result_view(r) == issue_result(outcome_view(outcome), false),
            final(self)@ == handler_after(old(self)@, outcome_view(outcome), false),
            r is Err ==> *final(self) == *old(self),
    {
        self.receive_token(outcome, false)
    }

    fn receive_token(&mut self, outcome: Result<Response, TransportErrorKind>, creation: bool) -> (r: ClientResult<()>)
        ensures
            unit_result_view(r) == issue_result(outcome_view(outcome), creation),
            final(self)@ == handler_after(old(self)@, outcome_view(outcome), creation),
            r is Err ==> *final(self) == *old(self),
    {
        match accept(outcome, creation) {
            Ok(document) => match text_member(&document, "token") {
                Some(token) => {
                    self.token = token;
                    Ok(())
                },
                None => Err(mismatch()),
            },
            Err(error) => Err(error),
        }
    }
}

} // verus!
