//! Re-export of all charsets (`Charset::...` variants) from RFC 6838.

pub use crate::Charset::RestrictedToken;
