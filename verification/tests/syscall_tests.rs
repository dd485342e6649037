use orbital::input::add_input_char;
use orbital::process::{get_process_status, set_process_status, ProcessStatus};
use orbital::scheduler::timer_tick;
use orbital::syscall::{
    dispatch_syscall, sys_exit, sys_hello, sys_log, sys_ps, sys_read, sys_task_create,
    sys_task_wait, sys_write, Kernel, SysError, SYS_EXIT, SYS_GET_PID, SYS_HELLO, SYS_PS,
    SYS_TASK_CREATE, SYS_TASK_WAIT, SYS_UPTIME, SYS_WRITE,
};

#[test]
fn test_syscall_hello() {
    // Valid magic number
    let result = sys_hello(0xCAFEBABE, 0, 0, 0, 0, 0);
    assert_eq!(result, Ok(0xDEADBEEF));

    // Invalid magic number
    let result = sys_hello(0, 0, 0, 0, 0, 0);
    assert_eq!(result, Err(SysError::Invalid));
}

#[test]
fn test_syscall_log() {
    let mut k = Kernel::new();
    let mem = vec![0u8; 8192];

    // Valid length
    let result = sys_log(&mut k, &mem, 0x1000, 10, 0, 0, 0, 0);
    assert_eq!(result, Ok(10));

    // Zero length
    let result = sys_log(&mut k, &mem, 0x1000, 0, 0, 0, 0, 0);
    assert_eq!(result, Err(SysError::Invalid));

    // Within the 4096-byte cap
    let result = sys_log(&mut k, &mem, 0x1000, 2000, 0, 0, 0, 0);
    assert_eq!(result, Ok(2000));

    // Beyond the cap
    let result = sys_log(&mut k, &mem, 0x1000, 5000, 0, 0, 0, 0);
    assert_eq!(result, Err(SysError::Invalid));
}

#[test]
fn test_log_appends_newline() {
    let mut k = Kernel::new();
    let mut mem = vec![0u8; 64];
    mem[8..11].copy_from_slice(b"okk");
    assert_eq!(sys_log(&mut k, &mem, 8, 3, 0, 0, 0, 0), Ok(3));
    assert_eq!(k.tty, b"okk\n".to_vec());
}

#[test]
fn test_dispatch_table() {
    let mut k = Kernel::new();
    let mut mem = vec![0u8; 64];

    // Valid syscall number
    let result = dispatch_syscall(&mut k, &mut mem, SYS_HELLO, 0xCAFEBABE, 0, 0, 0, 0, 0);
    assert_eq!(result, 0xDEADBEEF_u32 as i64);

    // Invalid syscall number (out of range)
    let result = dispatch_syscall(&mut k, &mut mem, 999, 0, 0, 0, 0, 0, 0);
    assert_eq!(result, SysError::NotImplemented.to_return_value());
}

#[test]
fn test_dispatch_out_of_range_ignores_arguments() {
    let mut k = Kernel::new();
    let mut mem = vec![0u8; 64];
    assert_eq!(dispatch_syscall(&mut k, &mut mem, 10, 1, 2, 3, 4, 5, 6), -2);
    assert_eq!(dispatch_syscall(&mut k, &mut mem, 100, 0, 0, 0, 0, 0, 0), -2);
    assert_eq!(
        dispatch_syscall(&mut k, &mut mem, usize::MAX, 7, 7, 7, 7, 7, 7),
        -2
    );
}

#[test]
fn test_syscall_write() {
    let mut k = Kernel::new();
    let mem = vec![0u8; 8192];

    // Valid fd (1 = stdout)
    let result = sys_write(&mut k, &mem, 1, 0x1000, 10, 0, 0, 0);
    assert_eq!(result, Ok(10));

    // Valid fd (2 = stderr)
    let result = sys_write(&mut k, &mem, 2, 0x1000, 10, 0, 0, 0);
    assert_eq!(result, Ok(10));

    // Invalid fd (3)
    let result = sys_write(&mut k, &mem, 3, 0x1000, 10, 0, 0, 0);
    assert_eq!(result, Err(SysError::BadFd));

    // Zero length
    let result = sys_write(&mut k, &mem, 1, 0x1000, 0, 0, 0, 0);
    assert_eq!(result, Err(SysError::Invalid));

    // Too long
    let result = sys_write(&mut k, &mem, 1, 0x1000, 5000, 0, 0, 0);
    assert_eq!(result, Err(SysError::Invalid));

    // NULL pointer
    let result = sys_write(&mut k, &mem, 1, 0, 10, 0, 0, 0);
    assert_eq!(result, Err(SysError::Fault));
}

#[test]
fn test_error_codes() {
    assert_eq!(SysError::Invalid.to_return_value(), -1);
    assert_eq!(SysError::NotImplemented.to_return_value(), -2);
    assert_eq!(SysError::Fault.to_return_value(), -3);
    assert_eq!(SysError::BadFd.to_return_value(), -9);
}

#[test]
fn test_error_code_round_trip() {
    assert_eq!(SysError::from_code(-1), Some(SysError::Invalid));
    assert_eq!(SysError::from_code(-2), Some(SysError::NotImplemented));
    assert_eq!(SysError::from_code(-3), Some(SysError::Fault));
    assert_eq!(SysError::from_code(-4), Some(SysError::PermissionDenied));
    assert_eq!(SysError::from_code(-5), Some(SysError::NotFound));
    assert_eq!(SysError::from_code(-6), Some(SysError::Error));
    assert_eq!(SysError::from_code(-9), Some(SysError::BadFd));
    assert_eq!(SysError::from_code(0), None);
    assert_eq!(SysError::from_code(-7), None);
}

#[test]
fn test_write_routes_to_tty() {
    let mut k = Kernel::new();
    let mut mem = vec![0u8; 32];
    mem[4..9].copy_from_slice(b"hello");
    assert_eq!(sys_write(&mut k, &mem, 1, 4, 5, 0, 0, 0), Ok(5));
    assert_eq!(k.tty, b"hello".to_vec());
    // A faulting write leaves the sink untouched.
    assert_eq!(sys_write(&mut k, &mem, 1, 0, 5, 0, 0, 0), Err(SysError::Fault));
    assert_eq!(k.tty, b"hello".to_vec());
}

#[test]
fn test_syscall_read_drains_input() {
    let mut k = Kernel::new();
    for b in b"hi there" {
        add_input_char(&mut k.input, *b);
    }
    let mut mem = vec![0u8; 64];

    // Wrong descriptor
    assert_eq!(sys_read(&mut k, &mut mem, 3, 8, 4, 0, 0, 0), Err(SysError::BadFd));
    // Zero-length reads return immediately
    assert_eq!(sys_read(&mut k, &mut mem, 0, 8, 0, 0, 0, 0), Ok(0));
    // Null pointer faults
    assert_eq!(sys_read(&mut k, &mut mem, 0, 0, 4, 0, 0, 0), Err(SysError::Fault));

    // Reads as much as requested...
    assert_eq!(sys_read(&mut k, &mut mem, 0, 8, 2, 0, 0, 0), Ok(2));
    assert_eq!(&mem[8..10], b"hi");
    // ...and then only what remains (non-blocking).
    assert_eq!(sys_read(&mut k, &mut mem, 0, 16, 32, 0, 0, 0), Ok(6));
    assert_eq!(&mem[16..22], b" there");
    assert_eq!(sys_read(&mut k, &mut mem, 0, 16, 32, 0, 0, 0), Ok(0));
}

#[test]
fn test_syscall_exit_marks_process() {
    let mut k = Kernel::new();
    let mut mem = vec![0u8; 16];
    // No current process: nothing to exit.
    assert_eq!(sys_exit(&mut k, 0, 0, 0, 0, 0, 0), Err(SysError::NotFound));

    let pid = dispatch_syscall(&mut k, &mut mem, SYS_TASK_CREATE, 0x1000, 0, 0, 0, 0, 0);
    assert_eq!(pid, 1);
    k.sched.set_current(Some(1));
    set_process_status(&mut k.table, 1, ProcessStatus::Running);

    assert_eq!(dispatch_syscall(&mut k, &mut mem, SYS_EXIT, 42, 0, 0, 0, 0, 0), 0);
    assert_eq!(get_process_status(&k.table, 1), Some(ProcessStatus::Exited(42)));
}

#[test]
fn test_syscall_task_create() {
    let mut k = Kernel::new();
    assert_eq!(sys_task_create(&mut k, 0, 0, 0, 0, 0, 0), Err(SysError::Invalid));
    assert_eq!(sys_task_create(&mut k, 0x1000, 0, 0, 0, 0, 0), Ok(1));
    assert_eq!(sys_task_create(&mut k, 0x2000, 0, 0, 0, 0, 0), Ok(2));
    assert_eq!(get_process_status(&k.table, 1), Some(ProcessStatus::Ready));
    // Both fresh ids entered the ready queue in order.
    assert_eq!(k.sched.dequeue(), Some(1));
    assert_eq!(k.sched.dequeue(), Some(2));
}

#[test]
fn test_syscall_task_wait() {
    let mut k = Kernel::new();
    let mut mem = vec![0u8; 16];
    assert_eq!(sys_task_wait(&mut k, 0, 0, 0, 0, 0, 0), Err(SysError::Invalid));
    assert_eq!(sys_task_wait(&mut k, 5, 0, 0, 0, 0, 0), Err(SysError::NotFound));

    assert_eq!(sys_task_create(&mut k, 0x1000, 0, 0, 0, 0, 0), Ok(1));
    set_process_status(&mut k.table, 1, ProcessStatus::Exited(7));
    assert_eq!(sys_task_wait(&mut k, 1, 0, 0, 0, 0, 0), Ok(7));
    // Through the dispatcher the exit code comes back as the return word.
    assert_eq!(dispatch_syscall(&mut k, &mut mem, SYS_TASK_WAIT, 1, 0, 0, 0, 0, 0), 7);
}

#[test]
fn test_syscall_get_pid() {
    let mut k = Kernel::new();
    let mut mem = vec![0u8; 16];
    // Idle scheduler: the first task id is reported.
    assert_eq!(dispatch_syscall(&mut k, &mut mem, SYS_GET_PID, 0, 0, 0, 0, 0, 0), 1);
    k.sched.set_current(Some(3));
    assert_eq!(dispatch_syscall(&mut k, &mut mem, SYS_GET_PID, 0, 0, 0, 0, 0, 0), 3);
}

#[test]
fn test_syscall_uptime() {
    let mut k = Kernel::new();
    let mut mem = vec![0u8; 16];
    assert_eq!(dispatch_syscall(&mut k, &mut mem, SYS_UPTIME, 0, 0, 0, 0, 0, 0), 0);
    for _ in 0..250 {
        timer_tick(&mut k.sched);
    }
    // 250 ticks at 100 Hz make two whole seconds.
    assert_eq!(dispatch_syscall(&mut k, &mut mem, SYS_UPTIME, 0, 0, 0, 0, 0, 0), 2);
}

#[test]
fn test_syscall_ps() {
    let mut k = Kernel::new();
    let mut mem = vec![0u8; 256];
    assert_eq!(sys_task_create(&mut k, 0x1000, 0, 0, 0, 0, 0), Ok(1));
    assert_eq!(sys_task_create(&mut k, 0x2000, 0, 0, 0, 0, 0), Ok(2));
    set_process_status(&mut k.table, 2, ProcessStatus::Running);

    let expected = b"PID Status\n  1 Ready\n  2 Running\n";
    let written = dispatch_syscall(&mut k, &mut mem, SYS_PS, 16, 128, 0, 0, 0, 0);
    assert_eq!(written, expected.len() as i64);
    assert_eq!(&mem[16..16 + expected.len()], &expected[..]);

    // Null pointer or zero capacity
    assert_eq!(sys_ps(&mut k, &mut mem, 0, 128, 0, 0, 0, 0), Err(SysError::Invalid));
    assert_eq!(sys_ps(&mut k, &mut mem, 16, 0, 0, 0, 0, 0), Err(SysError::Invalid));
    // Buffer too small for the listing
    assert_eq!(sys_ps(&mut k, &mut mem, 16, 8, 0, 0, 0, 0), Err(SysError::Invalid));
    // Buffer leaving the caller's memory
    assert_eq!(sys_ps(&mut k, &mut mem, 240, 128, 0, 0, 0, 0), Err(SysError::Fault));
}

#[test]
fn test_dispatch_write_return_word() {
    let mut k = Kernel::new();
    let mut mem = vec![0u8; 64];
    mem[4..8].copy_from_slice(b"ping");
    assert_eq!(dispatch_syscall(&mut k, &mut mem, SYS_WRITE, 1, 4, 4, 0, 0, 0), 4);
    assert_eq!(dispatch_syscall(&mut k, &mut mem, SYS_WRITE, 7, 4, 4, 0, 0, 0), -9);
    assert_eq!(dispatch_syscall(&mut k, &mut mem, SYS_WRITE, 1, 0, 4, 0, 0, 0), -3);
    assert_eq!(dispatch_syscall(&mut k, &mut mem, SYS_WRITE, 1, 4, 0, 0, 0, 0), -1);
    assert_eq!(k.tty, b"ping".to_vec());
}
