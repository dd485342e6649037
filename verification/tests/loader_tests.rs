use orbital::binary_loader::{get_cli_binary, load_binary};
use orbital::elf_loader::parse_elf;
use orbital::input::{add_input_char, add_scancode, get_scancode, read_input, InputQueue};
use orbital::multiprocess::MultiProcessLauncher;
use orbital::process::ProcessStatus;

#[test]
fn test_binary_loader_rejects_empty() {
    let empty: &[u8] = &[];
    assert!(load_binary(empty, "test", 1, 0x100000).is_err());
}

#[test]
fn test_cli_binary_available() {
    assert!(get_cli_binary().is_some());
    let cli = get_cli_binary().unwrap();
    assert!(!cli.is_empty());
}

#[test]
fn test_cli_binary_parses() {
    let cli = get_cli_binary().unwrap();
    let info = parse_elf(&cli).unwrap();
    assert_eq!(info.entry_point, 0);
    assert_eq!(info.size, 64);
}

#[test]
fn test_load_binary_success() {
    let mut image = get_cli_binary().unwrap();
    // Point the entry at offset 0x40 of the image.
    image[0x18..0x20].copy_from_slice(&0x40u64.to_le_bytes());

    let base = 0x4444_4444_0000u64;
    let process = load_binary(&image, "shell", 9, base).unwrap();
    assert_eq!(process.id.0, 9);
    assert_eq!(process.entry_point, base + 0x40);
    assert_eq!(process.saved_context.rip, base);
    assert_eq!(process.saved_context.rsp, base + 4096 - 8);
    assert_eq!(process.status, ProcessStatus::Ready);
    assert_eq!(&process.stack[..64], &image[..]);
    assert!(process.stack[64..].iter().all(|b| *b == 0));
}

#[test]
fn test_load_binary_rejects_bad_image() {
    assert!(load_binary(b"NotELF\x00\x00", "bad", 1, 0x1000).is_err());
}

#[test]
fn test_load_binary_rejects_oversized() {
    let mut image = vec![0u8; 5000];
    let header = get_cli_binary().unwrap();
    image[..64].copy_from_slice(&header);
    assert!(load_binary(&image, "big", 1, 0x1000).is_err());
}

#[test]
fn test_launcher_creation() {
    let launcher = MultiProcessLauncher::new();
    assert_eq!(launcher.process_count, 0);
}

#[test]
fn test_launcher_counts_spawns() {
    let mut launcher = MultiProcessLauncher::new();
    launcher.record_spawn();
    launcher.record_spawn();
    assert_eq!(launcher.process_count, 2);
}

#[test]
fn test_input_buffer_init() {
    // Just verify it initializes without panic
    let _ = InputQueue::new();
}

#[test]
fn test_input_chars_round_trip() {
    let mut input = InputQueue::new();
    for b in b"abc" {
        add_input_char(&mut input, *b);
    }
    let mut buf = vec![0u8; 8];
    let n = read_input(&mut input, &mut buf);
    assert_eq!(n, 3);
    assert_eq!(&buf[..3], b"abc");
    // Nothing left afterwards.
    assert_eq!(read_input(&mut input, &mut buf), 0);
}

#[test]
fn test_scancode_queue_round_trip() {
    let mut scancodes = InputQueue::new();
    assert_eq!(get_scancode(&mut scancodes), None);
    add_scancode(&mut scancodes, 0x1c);
    add_scancode(&mut scancodes, 0x9c);
    assert_eq!(get_scancode(&mut scancodes), Some(0x1c));
    assert_eq!(get_scancode(&mut scancodes), Some(0x9c));
    assert_eq!(get_scancode(&mut scancodes), None);
}
