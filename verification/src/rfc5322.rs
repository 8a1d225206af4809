//! Re-export of all charsets (`Charset::...` variants) from RFC 5322.

pub use crate::Charset::AText;
pub use crate::Charset::CText;
pub use crate::Charset::DText;
pub use crate::Charset::ObsNoWsCtl;
pub use crate::Charset::QTextWs;
