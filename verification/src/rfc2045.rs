//! Re-export of all charsets (`Charset::...` variants) from RFC 2045.

pub use crate::Charset::Token;
