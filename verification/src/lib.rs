//! x0rs is a client library for the x0 HTTP API, written without I/O of its own.
//!
//! Every operation of the API is split in two verified steps. The first step
//! builds the [`transport::Request`] that has to be sent; the second step takes
//! what came back, a [`transport::Response`] or the kind of failure of the
//! transport, and turns it into a typed result. Sending the request is left to
//! the caller. To get started, take a look at [`Client`].

pub mod client;
pub mod error;
pub mod json;
pub mod laws;
pub mod model;
pub mod transport;

pub use client::Client;
