//! ELF entry-point loader.
//!
//! Validates the fixed 64-byte header of an ELF64 little-endian x86-64
//! executable — magic, class, encoding, version, type, machine — and
//! extracts the 8-byte little-endian entry-point address at offset 0x18.
//! Program and section headers are not parsed.

use vstd::prelude::*;

verus! {

/// Minimum byte length of a parseable header.
pub const ELF_HEADER_SIZE: usize = 64;

/// First magic byte.
pub const ELF_MAGIC_0: u8 = 0x7f;

/// Second magic byte (`E`).
pub const ELF_MAGIC_1: u8 = 0x45;

/// Third magic byte (`L`).
pub const ELF_MAGIC_2: u8 = 0x4c;

/// Fourth magic byte (`F`).
pub const ELF_MAGIC_3: u8 = 0x46;

/// File class: 64-bit.
pub const ELF_CLASS_64BIT: u8 = 2;

/// Data encoding: little-endian.
pub const ELF_DATA_LSB: u8 = 1;

/// Identification version.
pub const ELF_VERSION: u8 = 1;

/// File type: executable.
pub const ELF_TYPE_EXECUTABLE: u16 = 2;

/// Machine type: x86-64.
pub const ELF_MACHINE_X86_64: u16 = 0x3e;

/// Byte offset of the file-type field.
pub const ELF_TYPE_OFFSET: usize = 16;

/// Byte offset of the machine-type field.
pub const ELF_MACHINE_OFFSET: usize = 18;

/// Byte offset of the entry-point field.
pub const ELF_ENTRY_OFFSET: usize = 0x18;

/// ELF format error, one distinct value per failed check.
#[derive(Debug, Clone, Copy, PartialEq, Eq, Structural)]
pub enum ElfError {
    /// Invalid magic number (not an ELF file).
    BadMagic,
    /// Wrong class (not 64-bit).
    BadClass,
    /// Wrong encoding (not little-endian).
    BadEncoding,
    /// Wrong file type (not executable).
    BadType,
    /// Wrong machine type (not x86-64).
    BadMachine,
    /// Too small to contain a full header.
    TooSmall,
    /// Version mismatch.
    BadVersion,
}

/// Parsed ELF executable information (minimal); derived from a validated
/// header and never mutated.
#[derive(Debug, Clone, Copy, PartialEq, Eq, Structural)]
pub struct ElfInfo {
    /// Virtual address where execution should start.
    pub entry_point: u64,
    /// Size of the entire binary.
    pub size: u64,
}

/// The 16-bit little-endian value at offset `off`.
pub open spec fn le16_at(b: Seq<u8>, off: int) -> int {
    b[off] + 256 * b[off + 1]
}

/// The 64-bit little-endian value at offset `off`.
pub open spec fn le64_at(b: Seq<u8>, off: int) -> int {
    b[off] + 256 * (b[off + 1] + 256 * (b[off + 2] + 256 * (b[off + 3] + 256 * (b[off + 4] + 256
        * (b[off + 5] + 256 * (b[off + 6] + 256 * b[off + 7]))))))
}

/// Whether the first four bytes carry the ELF magic.
pub open spec fn has_elf_magic(b: Seq<u8>) -> bool {
    b.len() >= 4 && b[0] == ELF_MAGIC_0 && b[1] == ELF_MAGIC_1 && b[2] == ELF_MAGIC_2 && b[3]
        == ELF_MAGIC_3
}

/// What parsing a binary yields: the first failed check's error — wrong
/// magic as soon as four bytes are there to read it from, a short buffer,
/// then class, encoding, version, type and machine in order — or the
/// extracted entry point and total size.
pub open spec fn elf_parse_result(b: Seq<u8>) -> Result<ElfInfo, ElfError> {
    if b.len() >= 4 && !has_elf_magic(b) {
        Err(ElfError::BadMagic)
    } else if b.len() < ELF_HEADER_SIZE {
        Err(ElfError::TooSmall)
    } else if b[4] != ELF_CLASS_64BIT {
        Err(ElfError::BadClass)
    } else if b[5] != ELF_DATA_LSB {
        Err(ElfError::BadEncoding)
    } else if b[6] != ELF_VERSION {
        Err(ElfError::BadVersion)
    } else if le16_at(b, ELF_TYPE_OFFSET as int) != ELF_TYPE_EXECUTABLE {
        Err(ElfError::BadType)
    } else if le16_at(b, ELF_MACHINE_OFFSET as int) != ELF_MACHINE_X86_64 {
        Err(ElfError::BadMachine)
    } else {
        Ok(
            ElfInfo {
                entry_point: le64_at(b, ELF_ENTRY_OFFSET as int) as u64,
                size: b.len() as u64,
            },
        )
    }
}

/// The 16-bit little-endian value at offset `off` of `b`.
fn read_le16(b: &[u8], off: usize) -> (r: u16)
    requires
        off + 2 <= b@.len(),
    ensures
        r == le16_at(b@, off as int),
{
    // Pinning the length as a machine word keeps the index sums in range.
    let bound: usize = b.len();
    proof {
        assert(off + 1 < bound);
    }
    (b[off] as u16) + 256 * (b[off + 1] as u16)
}

/// The 64-bit little-endian value at offset `off` of `b`.
fn read_le64(b: &[u8], off: usize) -> (r: u64)
    requires
        off + 8 <= b@.len(),
    ensures
        r == le64_at(b@, off as int),
{
    // Pinning the length as a machine word keeps the index sums in range.
    let bound: usize = b.len();
    proof {
        assert(off + 7 < bound);
    }
    let x7 = b[off + 7] as u64;
    let x6 = (b[off + 6] as u64) + 256 * x7;
    let x5 = (b[off + 5] as u64) + 256 * x6;
    let x4 = (b[off + 4] as u64) + 256 * x5;
    let x3 = (b[off + 3] as u64) + 256 * x4;
    let x2 = (b[off + 2] as u64) + 256 * x3;
    let x1 = (b[off + 1] as u64) + 256 * x2;
    (b[off] as u64) + 256 * x1
}

/// Parse the ELF header of a binary blob.
///
/// Validates magic and format flags and extracts the entry point; only the
/// header is interpreted, no sections are loaded.
pub fn parse_elf(binary: &[u8]) -> (r: Result<ElfInfo, ElfError>)
    ensures
        r == elf_parse_result(binary@),
{
    if binary.len() >= 4 {
        if !(binary[0] == ELF_MAGIC_0 && binary[1] == ELF_MAGIC_1 && binary[2] == ELF_MAGIC_2
            && binary[3] == ELF_MAGIC_3) {
            return Err(ElfError::BadMagic);
        }
    }

    if binary.len() < ELF_HEADER_SIZE {
        return Err(ElfError::TooSmall);
    }

    if binary[4] != ELF_CLASS_64BIT {
        return Err(ElfError::BadClass);
    }

    if binary[5] != ELF_DATA_LSB {
        return Err(ElfError::BadEncoding);
    }

    if binary[6] != ELF_VERSION {
        return Err(ElfError::BadVersion);
    }

    if read_le16(binary, ELF_TYPE_OFFSET) != ELF_TYPE_EXECUTABLE {
        return Err(ElfError::BadType);
    }

    if read_le16(binary, ELF_MACHINE_OFFSET) != ELF_MACHINE_X86_64 {
        return Err(ElfError::BadMachine);
    }

    let entry_point = read_le64(binary, ELF_ENTRY_OFFSET);

    Ok(ElfInfo { entry_point, size: binary.len() as u64 })
}

/// Quick validity check: whether the binary parses as an ELF executable.
pub fn is_valid_elf(binary: &[u8]) -> (r: bool)
    ensures
        r == (elf_parse_result(binary@) is Ok),
{
    parse_elf(binary).is_ok()
}

} // verus!
