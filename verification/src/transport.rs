//! Nested transport-security configuration.
//!
//! The store validates this section and hands its values out; it does not
//! interpret them further. Only the parts the store reads are modeled: the
//! optional TLS section and its certificate-verification override.

use vstd::prelude::*;

use crate::error::ConfigError;

verus! {

/// The TLS section of the transport configuration.
#[derive(Clone, PartialEq, Eq)]
pub struct TlsConfig {
    /// When set, overrides certificate verification on the control channel.
    pub danger_ignore_certificate_verification: Option<bool>,
}

impl Default for TlsConfig {
    /// A fresh TLS section leaves the override unset.
    fn default() -> (r: Self)
        ensures
            r.danger_ignore_certificate_verification is None,
    {
        TlsConfig { danger_ignore_certificate_verification: None }
    }
}

/// Transport configuration: an optional TLS section.
#[derive(Clone, PartialEq, Eq)]
pub struct TransportConfig {
    pub tls: Option<TlsConfig>,
}

impl Default for TransportConfig {
    /// A fresh transport configuration has no TLS section.
    fn default() -> (r: Self)
        ensures
            r.tls is None,
    {
        TransportConfig { tls: None }
    }
}

impl TransportConfig {
    /// The three-state shape of the TLS section: absent, present with the
    /// override unset, or present with the override decided.
    pub open spec fn tls_state(&self) -> Option<Option<bool>> {
        match self.tls {
            Some(t) => Some(t.danger_ignore_certificate_verification),
            None => None,
        }
    }

    /// Validates the transport configuration. Every combination of the
    /// fields modeled here is consistent, so validation always succeeds,
    /// in strict mode as in non-strict mode.
    pub fn validate(&self, strict: bool) -> (r: Result<(), ConfigError>)
        ensures
            r is Ok,
    {
        let _ = strict;
        Ok(())
    }
}

} // verus!
