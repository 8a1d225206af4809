//! Re-export of all charsets (`Charset::...` variants) from RFC 7230.

pub use crate::Charset::Rfc7230Token as Token;
