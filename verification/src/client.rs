//! The client facade: the address of the service and the handlers bound to it.

use crate::error::ClientResult;
use crate::model::info::InfoHandler;
use crate::model::namespace::{NamespaceHandler, NamespaceHandlerView};
use vstd::prelude::*;

verus! {

/// The generation of the API that a service speaks. The two generations are
/// not compatible; a client speaks one of them on every path.
#[derive(Debug, Clone, Copy, PartialEq, Eq, Structural)]
pub enum ApiVersion {
    V1,
    V2,
}

impl ApiVersion {
    /// The prefix of every path of this generation.
    pub open spec fn spec_prefix(self) -> Seq<char> {
        match self {
            ApiVersion::V1 => "/v1"@,
            ApiVersion::V2 => "/v2"@,
        }
    }

    /// The prefix of every path of this generation.
    pub fn prefix(&self) -> (r: &'static str)
        ensures
            r@ == self.spec_prefix(),
    {
        match self {
            ApiVersion::V1 => "/v1",
            ApiVersion::V2 => "/v2",
        }
    }
}

/// The entry point of the library: it holds the base address of the service
/// and hands out the handlers of its resources.
#[derive(Debug, PartialEq, Eq)]
pub struct Client {
    pub base_uri: String,
    pub version: ApiVersion,
}

/// The mathematical value of a [`Client`].
pub struct ClientView {
    pub base_uri: Seq<char>,
    pub version: ApiVersion,
}

impl View for Client {
    type V = ClientView;

    open spec fn view(&self) -> ClientView {
        ClientView { base_uri: self.base_uri@, version: self.version }
    }
}

impl ClientView {
    /// The address of `path` on the service: the base address, the prefix of
    /// the generation, and the path.
    pub open spec fn endpoint(self, path: Seq<char>) -> Seq<char> {
        self.base_uri + self.version.spec_prefix() + path
    }
}

impl Client {
    /// A client for the service at `base_uri` that speaks the first generation
    /// of the API. Nothing is sent, and nothing can fail.
    pub fn new(base_uri: &str) -> (r: ClientResult<Client>)
        ensures
            r is Ok,
            r->Ok_0@ == (ClientView { base_uri: base_uri@, version: ApiVersion::V1 }),
    {
        Client::with_version(base_uri, ApiVersion::V1)
    }

    /// A client for the service at `base_uri` that speaks the generation
    /// `version` of the API. Nothing is sent, and nothing can fail.
    pub fn with_version(base_uri: &str, version: ApiVersion) -> (r: ClientResult<Client>)
        ensures
            r is Ok,
            r->Ok_0@ == (ClientView { base_uri: base_uri@, version }),
    {
        Ok(Client { base_uri: base_uri.to_owned(), version })
    }

    /// The address of `path` on the service.
    pub fn endpoint(&self, path: &str) -> (r: String)
        ensures
            r@ == self@.endpoint(path@),
    {
        let mut uri = self.base_uri.clone();
        uri.append(self.version.prefix());
        uri.append(path);
        uri
    }

    /// The handler of the service's info.
    pub fn info(&self) -> (r: InfoHandler<'_>)
        ensures
            r@ == self@,
    {
        InfoHandler::new(self)
    }

    /// The handler of the namespace `id`, holding `token` as its credential.
    /// An empty token stands for none.
    pub fn namespace(&self, id: &str, token: &str) -> (r: NamespaceHandler<'_>)
        ensures
            r@ == (NamespaceHandlerView { client: self@, id: id@, token: token@ }),
    {
        NamespaceHandler::new(id, token, self)
    }
}

} // verus!
