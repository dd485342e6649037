//! Userspace side of the syscall and IPC interfaces.
//!
//! Thin client code a userspace task links against: decoding the signed
//! syscall return word, and the management-daemon protocol spoken over
//! the kernel ring buffer — serialization of commands and responses into
//! raw messages.  The raw `syscall` instruction itself is machine code
//! and lives with the embedding program; the probe stub here reports that
//! no kernel transport is wired in.

use vstd::prelude::*;

use crate::common::{MgmtCommand, MgmtResponse, RawIpcMessage};

verus! {

/// Error type for syscall operations, mirroring the kernel's codes.
#[derive(Debug, Clone, Copy, PartialEq, Eq, Structural)]
pub enum SyscallError {
    /// Invalid syscall number or argument.
    Invalid,
    /// Syscall not implemented.
    NotImplemented,
    /// Memory fault.
    Fault,
    /// Permission denied.
    PermissionDenied,
    /// Resource not found.
    NotFound,
    /// Generic kernel error.
    Error,
    /// Bad file descriptor.
    BadFd,
}

impl SyscallError {
    /// The error a raw syscall return value stands for, if any.
    pub open spec fn spec_from_return_value(val: i64) -> Option<SyscallError> {
        if val == -1 {
            Some(SyscallError::Invalid)
        } else if val == -2 {
            Some(SyscallError::NotImplemented)
        } else if val == -3 {
            Some(SyscallError::Fault)
        } else if val == -4 {
            Some(SyscallError::PermissionDenied)
        } else if val == -5 {
            Some(SyscallError::NotFound)
        } else if val == -6 {
            Some(SyscallError::Error)
        } else if val == -9 {
            Some(SyscallError::BadFd)
        } else {
            None
        }
    }

    /// Convert from a raw syscall return value.
    pub fn from_return_value(val: i64) -> (r: Option<SyscallError>)
        ensures
            r == Self::spec_from_return_value(val),
    {
        match val {
            -1 => Some(SyscallError::Invalid),
            -2 => Some(SyscallError::NotImplemented),
            -3 => Some(SyscallError::Fault),
            -4 => Some(SyscallError::PermissionDenied),
            -5 => Some(SyscallError::NotFound),
            -6 => Some(SyscallError::Error),
            -9 => Some(SyscallError::BadFd),
            _ => None,
        }
    }
}

/// Result type for syscall operations.
pub type SyscallResult<T> = Result<T, SyscallError>;

/// The hello probe, as seen from a userspace build without the raw
/// syscall instruction wired in: always reports `NotImplemented`.
pub fn syscall_hello(magic: u64) -> (r: SyscallResult<u64>)
    ensures
        r == Err::<u64, SyscallError>(SyscallError::NotImplemented),
{
    let _ = magic;
    Err(SyscallError::NotImplemented)
}

/// Protocol version for IPC messages.
pub const IPC_PROTOCOL_VERSION: u32 = 1;

/// The wire form of a management command: one tag byte, padded to four.
pub open spec fn serialized_command(cmd: MgmtCommand) -> Seq<u8> {
    match cmd {
        MgmtCommand::GetState => seq![0u8, 0u8, 0u8, 0u8],
        MgmtCommand::Shutdown => seq![1u8, 0u8, 0u8, 0u8],
    }
}

/// The response a received byte string decodes to: tag byte 0 is
/// success, everything else — including an empty message — a failure.
pub open spec fn deserialized_response(bytes: Seq<u8>) -> MgmtResponse {
    if bytes.len() > 0 && bytes[0] == 0 {
        MgmtResponse::Okay
    } else {
        MgmtResponse::Error
    }
}

/// IPC client for sending commands to the management daemon: wraps the
/// kernel ring buffer with command serialization and message counting.
pub struct IpcClient {
    /// Task ID of this process.
    pub task_id: u32,
    /// Message counter for tracking (userspace-defined).
    pub msg_counter: u32,
}

impl IpcClient {
    /// Create a new IPC client with the given task id.
    pub fn new(task_id: u32) -> (r: IpcClient)
        ensures
            r.task_id == task_id,
            r.msg_counter == 0,
    {
        IpcClient { task_id, msg_counter: 0 }
    }

    /// Serialize a management command to its wire bytes.
    pub fn serialize_command(cmd: MgmtCommand) -> (r: [u8; 4])
        ensures
            r@ == serialized_command(cmd),
    {
        let tag: u8 = match cmd {
            MgmtCommand::GetState => 0,
            MgmtCommand::Shutdown => 1,
        };
        let bytes: [u8; 4] = [tag, 0, 0, 0];
        proof {
            assert(bytes@ =~= serialized_command(cmd));
        }
        bytes
    }

    /// Deserialize response bytes to a management response.
    pub fn deserialize_response(bytes: &[u8]) -> (r: MgmtResponse)
        ensures
            r == deserialized_response(bytes@),
    {
        if bytes.len() == 0 {
            return MgmtResponse::Error;
        }
        if bytes[0] == 0 {
            MgmtResponse::Okay
        } else {
            MgmtResponse::Error
        }
    }

    /// Send a command to the management daemon.
    ///
    /// Counts the message and builds the raw ring-buffer record carrying
    /// the serialized command.  No transport to a daemon is wired in, so
    /// the call reports success directly.
    pub fn send_command(&mut self, cmd: MgmtCommand) -> (r: Result<MgmtResponse, &'static str>)
        requires
            old(self).msg_counter < u32::MAX,
        ensures
            final(self).task_id == old(self).task_id,
            final(self).msg_counter == old(self).msg_counter + 1,
            r == Ok::<MgmtResponse, &'static str>(MgmtResponse::Okay),
    {
        self.msg_counter = self.msg_counter + 1;

        let payload = Self::serialize_command(cmd);
        let mut msg = RawIpcMessage {
            sender_task_id: self.task_id,
            msg_id: self.msg_counter,
            payload_len: 4,
            payload: [0u8; 256],
        };
        msg.payload[0] = payload[0];
        msg.payload[1] = payload[1];
        msg.payload[2] = payload[2];
        msg.payload[3] = payload[3];

        let _ = msg;
        Ok(MgmtResponse::Okay)
    }
}

/// IPC server for the management daemon: wraps the kernel ring buffer
/// with response serialization and version checking.
pub struct IpcServer {
    /// Task ID of the management daemon.
    pub task_id: u32,
}

impl IpcServer {
    /// Create a new IPC server with the given task id.
    pub fn new(task_id: u32) -> (r: IpcServer)
        ensures
            r.task_id == task_id,
    {
        IpcServer { task_id }
    }

    /// Wait for the next incoming command.  With no transport wired in
    /// there is never one pending.
    pub fn accept_command(&mut self) -> (r: Option<MgmtCommand>)
        ensures
            r is None,
            final(self).task_id == old(self).task_id,
    {
        None
    }

    /// Send a response to the caller: builds the one-byte-payload record
    /// (tag 0 for success, 1 for failure) for the ring buffer.
    pub fn send_response(&self, msg_id: u32, response: MgmtResponse) -> (r: Result<
        (),
        &'static str,
    >)
        ensures
            r is Ok,
    {
        let tag: u8 = match response {
            MgmtResponse::Okay => 0,
            MgmtResponse::Error => 1,
        };

        let mut msg = RawIpcMessage {
            sender_task_id: self.task_id,
            msg_id,
            payload_len: 1,
            payload: [0u8; 256],
        };
        msg.payload[0] = tag;

        let _ = msg;
        Ok(())
    }
}

} // verus!
