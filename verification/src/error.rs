//! The closed set of failures that an operation of the client can end in.

use vstd::prelude::*;

verus! {

/// Why a request could not be built.
#[derive(Debug, Clone, Copy, PartialEq, Eq, Structural)]
pub enum RequestError {
    /// The address of the endpoint is not a URI.
    InvalidUri,
    /// The value of a header holds a byte that no header value may hold.
    InvalidHeaderValue,
}

/// The kind of failure that the transport reports when no response arrives.
#[derive(Debug, Clone, Copy, PartialEq, Eq, Structural)]
pub enum TransportErrorKind {
    /// A problem occurred with the local certificate.
    BadClientCertificate,
    /// The server certificate could not be validated.
    BadServerCertificate,
    /// The HTTP client failed to initialize.
    ClientInitialization,
    /// The connection to the server failed.
    ConnectionFailed,
    /// The response used an unknown or malformed content encoding.
    InvalidContentEncoding,
    /// The server rejected the credentials of the request.
    InvalidCredentials,
    /// The transport found the request invalid.
    InvalidRequest,
    /// An I/O error on the connection or while reading the response.
    Io,
    /// The host name could not be resolved.
    NameResolution,
    /// The server violated the HTTP protocol.
    ProtocolViolation,
    /// The request body had to be sent again and could not be rewound.
    RequestBodyNotRewindable,
    /// The operation took longer than the configured timeout.
    Timeout,
    /// The TLS engine failed.
    TlsEngine,
    /// The limit of redirects was reached.
    TooManyRedirects,
    /// A failure of a kind that is not known.
    Unknown,
}

/// A failure of an operation of the client.
#[derive(Debug, PartialEq, Eq)]
pub enum ClientError {
    /// The request could not be built.
    HttpError(RequestError),
    /// The transport failed: while it was set up, or before a response arrived.
    IsahcError(TransportErrorKind),
    /// A body could not be written or read as JSON; the text says why.
    SerdeJsonError(String),
    /// The server answered with a status outside the expected ones.
    UnexpectedStatus(u16),
}

/// The mathematical value of a [`ClientError`].
pub enum ClientErrorView {
    HttpError(RequestError),
    IsahcError(TransportErrorKind),
    SerdeJsonError(Seq<char>),
    UnexpectedStatus(u16),
}

impl View for ClientError {
    type V = ClientErrorView;

    open spec fn view(&self) -> ClientErrorView {
        match *self {
            ClientError::HttpError(e) => ClientErrorView::HttpError(e),
            ClientError::IsahcError(k) => ClientErrorView::IsahcError(k),
            ClientError::SerdeJsonError(m) => ClientErrorView::SerdeJsonError(m@),
            ClientError::UnexpectedStatus(s) => ClientErrorView::UnexpectedStatus(s),
        }
    }
}

/// The result of an operation of the client.
pub type ClientResult<T> = Result<T, ClientError>;

} // verus!
