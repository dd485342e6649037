use orbital::common::{MgmtCommand, MgmtResponse};
use orbital::userspace::{syscall_hello, IpcClient, IpcServer, SyscallError};

#[test]
fn test_client_new() {
    let client = IpcClient::new(42);
    assert_eq!(client.task_id, 42);
    assert_eq!(client.msg_counter, 0);
}

#[test]
fn test_serialize_command() {
    let bytes_getstate = IpcClient::serialize_command(MgmtCommand::GetState);
    assert_eq!(bytes_getstate[0], 0);

    let bytes_shutdown = IpcClient::serialize_command(MgmtCommand::Shutdown);
    assert_eq!(bytes_shutdown[0], 1);
}

#[test]
fn test_deserialize_response() {
    let ok_bytes = [0u8; 4];
    assert!(matches!(
        IpcClient::deserialize_response(&ok_bytes),
        MgmtResponse::Okay
    ));

    let err_bytes = [1u8; 4];
    assert!(matches!(
        IpcClient::deserialize_response(&err_bytes),
        MgmtResponse::Error
    ));
}

#[test]
fn test_deserialize_empty_is_error() {
    assert!(matches!(
        IpcClient::deserialize_response(&[]),
        MgmtResponse::Error
    ));
}

#[test]
fn test_server_new() {
    let server = IpcServer::new(1);
    assert_eq!(server.task_id, 1);
}

#[test]
fn test_send_command_counts_messages() {
    let mut client = IpcClient::new(3);
    assert!(matches!(
        client.send_command(MgmtCommand::GetState),
        Ok(MgmtResponse::Okay)
    ));
    assert!(matches!(
        client.send_command(MgmtCommand::Shutdown),
        Ok(MgmtResponse::Okay)
    ));
    assert_eq!(client.msg_counter, 2);
}

#[test]
fn test_server_stub_paths() {
    let mut server = IpcServer::new(2);
    assert!(server.accept_command().is_none());
    assert!(server.send_response(1, MgmtResponse::Okay).is_ok());
    assert!(server.send_response(2, MgmtResponse::Error).is_ok());
}

#[test]
fn test_syscall_error_from_return_value() {
    assert_eq!(SyscallError::from_return_value(-1), Some(SyscallError::Invalid));
    assert_eq!(
        SyscallError::from_return_value(-2),
        Some(SyscallError::NotImplemented)
    );
    assert_eq!(SyscallError::from_return_value(-3), Some(SyscallError::Fault));
    assert_eq!(
        SyscallError::from_return_value(-4),
        Some(SyscallError::PermissionDenied)
    );
    assert_eq!(SyscallError::from_return_value(-5), Some(SyscallError::NotFound));
    assert_eq!(SyscallError::from_return_value(-6), Some(SyscallError::Error));
    assert_eq!(SyscallError::from_return_value(-9), Some(SyscallError::BadFd));
    assert_eq!(SyscallError::from_return_value(0), None);
    assert_eq!(SyscallError::from_return_value(7), None);
}

#[test]
fn test_hello_stub_reports_unwired_transport() {
    assert_eq!(syscall_hello(0xCAFEBABE), Err(SyscallError::NotImplemented));
}
