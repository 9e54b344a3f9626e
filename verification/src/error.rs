//! Failure kinds reported by the configuration store.

use vstd::prelude::*;

verus! {

/// Every failure this library reports, as a closed set of kinds.
///
/// The variants mirror the distinct situations the store runs into:
/// a file-system operation that the caller must perform failed, a value or
/// a persisted document did not parse, a credential is missing, the generic
/// accessor was called with a key outside the recognized set, or an install
/// environment was requested for a platform the host does not support.
#[derive(Debug, Clone, PartialEq, Eq)]
pub enum ConfigError {
    /// A directory or file operation failed; carries context.
    Io(String),
    /// A value or persisted document is malformed; carries context.
    Parse(String),
    /// `validate` found no credential token.
    AuthMissing,
    /// The generic accessor was called with an unrecognized key; carries the key.
    UnknownKey(String),
    /// No install environment exists for the requested platform.
    UnsupportedPlatform,
}

impl ConfigError {
    /// The text of `message` for each variant.
    pub open spec fn message_spec(&self) -> Seq<char> {
        match self {
            ConfigError::Io(m) => "I/O error: "@ + m@,
            ConfigError::Parse(m) => "Parse error: "@ + m@,
            ConfigError::AuthMissing => "Authentication token is missing"@,
            ConfigError::UnknownKey(k) => "Unknown key: "@ + k@,
            ConfigError::UnsupportedPlatform => "Unsupported platform"@,
        }
    }

    /// A human-readable description of the failure.
    pub fn message(&self) -> (r: String)
        ensures
            r@ == self.message_spec(),
    {
        match self {
            ConfigError::Io(m) => String::from_str("I/O error: ").concat(m.as_str()),
            ConfigError::Parse(m) => String::from_str("Parse error: ").concat(m.as_str()),
            ConfigError::AuthMissing => String::from_str("Authentication token is missing"),
            ConfigError::UnknownKey(k) => String::from_str("Unknown key: ").concat(k.as_str()),
            ConfigError::UnsupportedPlatform => String::from_str("Unsupported platform"),
        }
    }

    /// True of the variants that report a malformed value or document.
    pub open spec fn is_parse(&self) -> bool {
        self matches ConfigError::Parse(_)
    }
}

} // verus!
