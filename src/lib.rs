//! Verified core of an HTTP front-end that forwards one request type to a
//! backend RPC service: the responses of its routes, and the lifecycle of the
//! listener that serves them.

pub mod response;
pub mod lifecycle;
