//! The resources of the service and their handlers.

pub mod info;
pub mod namespace;
