//! Typed records for a host browser's cookie API, together with a verified
//! codec between those records and the host's dynamically typed call
//! convention.
//!
//! The host owns the cookie store; this crate only states the wire shape of
//! a cookie lookup, a cookie write, and a cookie record, and converts
//! between the typed records and that wire shape. Decoding treats every
//! host response as untrusted: absence is a normal `None` result, and a
//! malformed response is a `DecodeError`, never a crash.

pub mod codec;
pub mod cookies;
pub mod wire;

pub use codec::DecodeError;
pub use codec::decode_cookie;
pub use codec::encode_cookie;
pub use codec::encode_details;
pub use codec::encode_set_details;
pub use cookies::Cookie;
pub use cookies::CookieDetails;
pub use cookies::CookiePartitionKey;
pub use cookies::SameSiteStatus;
pub use cookies::SetCookieDetails;
pub use cookies::parse_same_site;
pub use cookies::same_site_tag;
pub use wire::WireValue;
