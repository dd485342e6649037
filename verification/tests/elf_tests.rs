use orbital::elf_loader::{is_valid_elf, parse_elf, ElfError};

fn minimal_header() -> [u8; 64] {
    let mut header = [0u8; 64];
    // Magic
    header[0..4].copy_from_slice(b"\x7fELF");
    // Class: 64-bit
    header[4] = 2;
    // Encoding: little-endian
    header[5] = 1;
    // Version
    header[6] = 1;
    // Type: executable
    header[16..18].copy_from_slice(&2u16.to_le_bytes());
    // Machine: x86_64
    header[18..20].copy_from_slice(&0x3eu16.to_le_bytes());
    header
}

#[test]
fn test_invalid_magic() {
    let bad_magic = b"NotELF\x00\x00";
    assert_eq!(parse_elf(bad_magic), Err(ElfError::BadMagic));
}

#[test]
fn test_too_small() {
    let small = b"ELF";
    assert_eq!(parse_elf(small), Err(ElfError::TooSmall));
}

#[test]
fn test_valid_minimal_elf() {
    // Construct minimal valid ELF header for testing
    let mut header = minimal_header();

    // Entry point
    let entry = 0x1000u64;
    header[0x18..0x20].copy_from_slice(&entry.to_le_bytes());

    let result = parse_elf(&header);
    assert!(result.is_ok());
    assert_eq!(result.unwrap().entry_point, 0x1000);
}

#[test]
fn test_bad_class() {
    let mut header = minimal_header();
    header[4] = 1; // 32-bit
    assert_eq!(parse_elf(&header), Err(ElfError::BadClass));
}

#[test]
fn test_bad_encoding() {
    let mut header = minimal_header();
    header[5] = 2; // big-endian
    assert_eq!(parse_elf(&header), Err(ElfError::BadEncoding));
}

#[test]
fn test_bad_version() {
    let mut header = minimal_header();
    header[6] = 0;
    assert_eq!(parse_elf(&header), Err(ElfError::BadVersion));
}

#[test]
fn test_bad_type() {
    let mut header = minimal_header();
    header[16..18].copy_from_slice(&3u16.to_le_bytes()); // shared object
    assert_eq!(parse_elf(&header), Err(ElfError::BadType));
}

#[test]
fn test_bad_machine() {
    let mut header = minimal_header();
    header[18..20].copy_from_slice(&0x28u16.to_le_bytes()); // not x86-64
    assert_eq!(parse_elf(&header), Err(ElfError::BadMachine));
}

#[test]
fn test_entry_point_little_endian() {
    let mut header = minimal_header();
    header[0x18..0x20].copy_from_slice(&0x0102_0304_0506_0708u64.to_le_bytes());
    assert_eq!(parse_elf(&header).unwrap().entry_point, 0x0102_0304_0506_0708);
    assert_eq!(parse_elf(&header).unwrap().size, 64);
}

#[test]
fn test_is_valid_elf() {
    let header = minimal_header();
    assert!(is_valid_elf(&header));
    assert!(!is_valid_elf(b"NotELF\x00\x00"));
}
