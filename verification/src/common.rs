//! Shared types crossing the kernel / userspace / IPC boundaries.
//!
//! Only definitions live here; the interpretation of payloads is left to the
//! layers above the ring buffer.

use vstd::prelude::*;

verus! {

/// Raw IPC message transmitted over the ring buffer.
///
/// A minimal byte-oriented record: the kernel only moves bytes, userspace
/// decides what they mean.
#[derive(Debug, Clone, Copy)]
pub struct RawIpcMessage {
    /// Sender task ID (set by the kernel).
    pub sender_task_id: u32,
    /// Message ID (application-defined).
    pub msg_id: u32,
    /// Payload size in bytes (0-256).
    pub payload_len: u16,
    /// Message payload (userspace-defined format).
    pub payload: [u8; 256],
}

/// IPC message header: metadata only, no payload interpretation.
#[derive(Debug, Clone, Copy)]
pub struct IpcMessageHeader {
    /// Protocol version for compatibility checking.
    pub version: u32,
    /// Sender task ID.
    pub sender_task_id: u32,
    /// Unique message identifier.
    pub msg_id: u32,
    /// Payload size.
    pub payload_len: u16,
}

/// A command sent to the management daemon.
#[derive(Debug, Clone, Copy)]
pub enum MgmtCommand {
    /// Request the system state.
    GetState,
    /// Shutdown the system.
    Shutdown,
}

/// Response from the management daemon.
#[derive(Debug, Clone, Copy)]
pub enum MgmtResponse {
    /// Operation successful.
    Okay,
    /// Operation failed.
    Error,
}

/// Errors crossing subsystem boundaries.
#[derive(Debug, Clone, Copy)]
pub enum OrbitalError {
    /// IPC communication failed.
    IpcError,
    /// Invalid configuration.
    ConfigError,
    /// Permission denied.
    PermissionDenied,
}

} // verus!
