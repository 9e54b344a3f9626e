//! Client-side configuration store and connection-resilience policy for a
//! tunneling agent: persisted identity and credentials, transport security
//! toggles, platform install conventions, a string-keyed accessor over the
//! persisted fields, and the exponential-backoff schedules used when the
//! control channel or a listening socket must be re-established.

pub mod error;
pub mod strutil;
pub mod platform;
pub mod numbers;
pub mod masked;
pub mod transport;
pub mod env;
pub mod constants;
pub mod retry;
pub mod format;
pub mod config;
