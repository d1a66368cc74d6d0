//! Pseudo-header support for HTTP/2-style requests: a validated, shareable
//! string value for the extended-CONNECT `:protocol` field, and a builder
//! that stages overrides for the five pseudo-headers before a request is
//! encoded.

pub mod bytes_str;
pub mod ext;
pub mod validate;

pub use bytes_str::BytesStr;
pub use ext::Protocol;
pub use ext::PseudoHeadersOverride;
pub use validate::Utf8Error;
