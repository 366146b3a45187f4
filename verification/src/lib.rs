//! Client-side core of a read-only market-data REST API for a cryptocurrency
//! exchange: the instrument catalog, the URL construction rule, and the
//! decoding of JSON response bodies into exact-decimal value objects.
//!
//! Network transport is deliberately outside this crate's scope: callers fetch
//! a response body over HTTP and hand the raw bytes to the decoders here.

pub mod coin;
pub mod decimal;
pub mod decode;
pub mod json;
pub mod url;
