//! A minimal JSON-RPC request/response cycle: decode a request from bytes,
//! dispatch it to a named method, encode the response as bytes.
//!
//! The cycle is a pure function from request bytes to response bytes. The
//! transport that moves the bytes is not part of this crate.
//!
//! Beside the cycle stand the rules of a small item service, which a server
//! can offer over the same transport.

pub mod decimal;
pub mod dispatch;
pub mod items;
pub mod json;
pub mod request;
pub mod response;
pub mod service;
pub mod text;
