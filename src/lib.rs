//! An inbound HTTP request as a value: a fixed identity (method, path,
//! protocol version, peer address), two mutable text mappings (headers and
//! route parameters), a body buffer, and JSON decoding of that body.

mod addr;
mod json;
mod method;
mod request;
mod text_map;

pub use addr::{IpAddr, SocketAddr};
pub use json::{decoded, decoding_repeatable, json_parse, DecodeError};
pub use method::Method;
pub use request::{identity_survives_edits, is_edit, Request, RequestView};
pub use text_map::{lookup, lookup_after_insert, text_of, TextMap};
