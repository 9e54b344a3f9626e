//! Fixed timing and capacity constants consumed by the transport layer.

use vstd::prelude::*;

verus! {

/// Application-layer heartbeat interval in seconds.
pub const DEFAULT_HEARTBEAT_INTERVAL_SECS: u64 = 30;

/// Liveness threshold: absence of a heartbeat for this many seconds is
/// treated as connection loss.
pub const DEFAULT_HEARTBEAT_TIMEOUT_SECS: u64 = 40;

/// Size of a data buffer, in bytes (16 KiB).
pub const DATA_BUFFER_SIZE: usize = 16384;

/// Packets queued in the data channel.
pub const DATA_CHANNEL_SIZE: usize = 1024;

/// Packets queued in the control channel.
pub const CONTROL_CHANNEL_SIZE: usize = 1024;

/// Default ceiling, in seconds, fed to the control-channel reconnect backoff.
pub const DEFAULT_CLIENT_RETRY_INTERVAL_SECS: u64 = 60;

/// Default client data-channel capacity, in bytes (four data buffers).
pub const DEFAULT_CLIENT_DATA_CHANNEL_CAPACITY: u32 = 65536;

/// Capacity of the TCP incoming-connection backlog.
pub const BACKLOG_SIZE: usize = 1024;

/// Timeout for the transport handshake, in seconds.
pub const HANDSHAKE_TIMEOUT: u64 = 5;

/// Whether TCP_NODELAY is requested by default.
pub const DEFAULT_NODELAY: bool = true;

/// TCP keepalive idle time, in seconds.
pub const DEFAULT_KEEPALIVE_SECS: u64 = 20;

/// TCP keepalive probe interval, in seconds.
pub const DEFAULT_KEEPALIVE_INTERVAL: u64 = 8;

/// UDP receive buffer size, in bytes.
pub const UDP_BUFFER_SIZE: usize = 2048;

/// UDP send-queue size, in packets.
pub const UDP_SENDQ_SIZE: usize = 1024;

/// UDP association timeout, in seconds.
pub const UDP_TIMEOUT: u64 = 60;

/// Listener sockets opened per file descriptor.
pub const LISTENERS_PER_FD: usize = 1;

} // verus!
