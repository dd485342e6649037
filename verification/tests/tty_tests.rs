use orbital::tty::{tty_write, tty_write_with_newline, TTY_MAX_WRITE};

#[test]
fn test_tty_write_empty() {
    let mut tty = Vec::new();
    let result = tty_write(&mut tty, &[]);
    assert_eq!(result, 0);
    assert!(tty.is_empty());
}

#[test]
fn test_tty_write_single_byte() {
    let mut tty = Vec::new();
    let data = [b'A'];
    let result = tty_write(&mut tty, &data);
    assert_eq!(result, 1);
    assert_eq!(tty, vec![b'A']);
}

#[test]
fn test_tty_write_multiple_bytes() {
    let mut tty = Vec::new();
    let data = b"Hello, World!";
    let result = tty_write(&mut tty, data);
    assert_eq!(result, data.len());
    assert_eq!(tty, data.to_vec());
}

#[test]
fn test_tty_write_max_size() {
    let mut tty = Vec::new();
    let data = vec![b'x'; TTY_MAX_WRITE];
    let result = tty_write(&mut tty, &data);
    assert_eq!(result, TTY_MAX_WRITE);
    assert_eq!(tty.len(), TTY_MAX_WRITE);
}

#[test]
fn test_tty_write_with_newline() {
    let mut tty = Vec::new();
    let data = b"Log message";
    let result = tty_write_with_newline(&mut tty, data);
    assert_eq!(result, data.len());
    assert_eq!(tty, b"Log message\n".to_vec());
}

#[test]
fn test_tty_writes_accumulate() {
    let mut tty = Vec::new();
    tty_write(&mut tty, b"a");
    tty_write_with_newline(&mut tty, b"b");
    tty_write(&mut tty, b"c");
    assert_eq!(tty, b"ab\nc".to_vec());
}
