use soveu_kernel::elf::definitions::{
    Class, Data, Machine, OsAbi, SegmentType, Type, EHSIZE_X64, EV_CURRENT, MAGIC, PF_R, PF_W,
    PF_X, PT_LOAD,
};
use soveu_kernel::elf::{Amd64, Error, MemoryError};

fn put16(b: &mut Vec<u8>, off: usize, v: u16) {
    b[off..off + 2].copy_from_slice(&v.to_le_bytes());
}

fn put32(b: &mut Vec<u8>, off: usize, v: u32) {
    b[off..off + 4].copy_from_slice(&v.to_le_bytes());
}

fn put64(b: &mut Vec<u8>, off: usize, v: u64) {
    b[off..off + 8].copy_from_slice(&v.to_le_bytes());
}

/// A valid x86-64 executable image with two program headers right after the
/// file header.
fn sample_elf() -> Vec<u8> {
    let mut b = vec![0u8; 64 + 2 * 56];
    b[0..4].copy_from_slice(&[0x7F, b'E', b'L', b'F']);
    b[4] = 2;
    b[5] = 1;
    b[6] = 1;
    b[7] = 0;
    b[8] = 0;
    put16(&mut b, 16, 2);
    put16(&mut b, 18, 62);
    put32(&mut b, 20, 1);
    put64(&mut b, 24, 0x20_1000);
    put64(&mut b, 32, 64);
    put64(&mut b, 40, 0);
    put32(&mut b, 48, 0);
    put16(&mut b, 52, 64);
    put16(&mut b, 54, 56);
    put16(&mut b, 56, 2);
    put16(&mut b, 58, 64);
    put16(&mut b, 60, 0);
    put16(&mut b, 62, 0);
    // first program header: loadable, read + execute
    put32(&mut b, 64, 1);
    put32(&mut b, 68, 5);
    put64(&mut b, 72, 0x1000);
    put64(&mut b, 80, 0x20_1000);
    put64(&mut b, 88, 0x20_1000);
    put64(&mut b, 96, 0x234);
    put64(&mut b, 104, 0x234);
    put64(&mut b, 112, 0x1000);
    // second program header: loadable, read + write, bss larger than file
    put32(&mut b, 120, 1);
    put32(&mut b, 124, 6);
    put64(&mut b, 128, 0x2000);
    put64(&mut b, 136, 0x20_2000);
    put64(&mut b, 144, 0);
    put64(&mut b, 152, 0x10);
    put64(&mut b, 160, 0x800);
    put64(&mut b, 168, 0x1000);
    b
}

/// Copies `bytes` into memory aligned for `u64`, with `pad` spare bytes
/// before them, and gives the words back.
fn aligned_words(bytes: &[u8], pad: usize) -> Vec<u64> {
    let total = bytes.len() + pad;
    let mut words = vec![0u64; (total + 7) / 8 + 1];
    let view: &mut [u8] = bytemuck::cast_slice_mut(&mut words);
    view[pad..pad + bytes.len()].copy_from_slice(bytes);
    words
}

#[test]
fn accepts_x64_executable() {
    let image = sample_elf();
    let words = aligned_words(&image, 0);
    let all: &[u8] = bytemuck::cast_slice(&words);
    let data = &all[..image.len()];
    let elf = Amd64::from_bytes(data).unwrap();
    assert_eq!(elf.data.len(), image.len());
    let h = elf.header();
    assert_eq!(h.e_ident.ei_magic, MAGIC);
    assert_eq!(h.e_ident.ei_class, 2);
    assert_eq!(h.e_ident.ei_data, 1);
    assert_eq!(h.e_type, 2);
    assert_eq!(h.e_machine, 62);
    assert_eq!(h.e_version, 1);
    assert_eq!(h.e_entry, Some(0x20_1000));
    assert_eq!(h.e_phoff, Some(64));
    assert_eq!(h.e_shoff, None);
    assert_eq!(h.e_ehsize, 64);
    assert_eq!(h.e_phentsize, 56);
    assert_eq!(h.e_phnum, 2);
    assert_eq!(h.e_shentsize, 64);
}

#[test]
fn reads_program_headers() {
    let image = sample_elf();
    let words = aligned_words(&image, 0);
    let all: &[u8] = bytemuck::cast_slice(&words);
    let elf = Amd64::from_bytes(&all[..image.len()]).unwrap();
    assert_eq!(elf.program_header_table(), Ok((64, 64 + 112)));
    let headers = elf.program_headers().unwrap();
    assert_eq!(headers.len(), 2);
    assert_eq!(headers[0].p_type, PT_LOAD);
    assert_eq!(headers[0].p_flags, PF_R | PF_X);
    assert_eq!(headers[0].p_offset, 0x1000);
    assert_eq!(headers[0].p_vaddr, 0x20_1000);
    assert_eq!(headers[0].p_paddr, 0x20_1000);
    assert_eq!(headers[0].p_filesz, 0x234);
    assert_eq!(headers[0].p_memsz, 0x234);
    assert_eq!(headers[0].p_align, 0x1000);
    assert_eq!(headers[1].p_flags, PF_R | PF_W);
    assert_eq!(headers[1].p_vaddr, 0x20_2000);
    assert_eq!(headers[1].p_paddr, 0);
    assert_eq!(headers[1].p_filesz, 0x10);
    assert_eq!(headers[1].p_memsz, 0x800);
}

#[test]
fn validate_ignores_alignment() {
    let image = sample_elf();
    let words = aligned_words(&image, 1);
    let all: &[u8] = bytemuck::cast_slice(&words);
    let shifted = &all[1..1 + image.len()];
    assert_eq!(Amd64::validate(shifted), Ok(()));
}

#[test]
fn rejects_misaligned_buffer() {
    let image = sample_elf();
    let words = aligned_words(&image, 1);
    let all: &[u8] = bytemuck::cast_slice(&words);
    let shifted = &all[1..1 + image.len()];
    assert!(matches!(Amd64::from_bytes(shifted), Err(Error::WrongAlignment)));
}

fn check(image: &[u8]) -> Result<(), Error> {
    let words = aligned_words(image, 0);
    let all: &[u8] = bytemuck::cast_slice(&words);
    Amd64::from_bytes(&all[..image.len()]).map(|_| ())
}

#[test]
fn rejects_short_identification() {
    let image = sample_elf();
    assert_eq!(check(&image[..15]), Err(Error::UnexpectedEnd));
    assert_eq!(check(&[]), Err(Error::UnexpectedEnd));
}

#[test]
fn rejects_short_header() {
    let image = sample_elf();
    assert_eq!(check(&image[..63]), Err(Error::UnexpectedEnd));
    assert_eq!(check(&image[..16]), Err(Error::UnexpectedEnd));
    assert_eq!(check(&image[..EHSIZE_X64]), Ok(()));
}

#[test]
fn rejects_bad_magic() {
    let mut image = sample_elf();
    image[1] = b'X';
    assert_eq!(check(&image), Err(Error::NotElf));
}

#[test]
fn rejects_32_bit_class() {
    let mut image = sample_elf();
    image[4] = 1;
    assert_eq!(check(&image), Err(Error::WrongClass));
}

#[test]
fn rejects_big_endian() {
    let mut image = sample_elf();
    image[5] = 2;
    assert_eq!(check(&image), Err(Error::WrongEndianess));
}

#[test]
fn rejects_unknown_ident_version() {
    let mut image = sample_elf();
    image[6] = 2;
    assert_eq!(check(&image), Err(Error::UnsupportedVersion));
}

#[test]
fn rejects_other_os_abi() {
    let mut image = sample_elf();
    image[7] = 3;
    assert_eq!(check(&image), Err(Error::WrongOsAbi));
    let mut image = sample_elf();
    image[8] = 1;
    assert_eq!(check(&image), Err(Error::WrongOsAbi));
}

#[test]
fn rejects_shared_object() {
    let mut image = sample_elf();
    put16(&mut image, 16, 3);
    assert_eq!(check(&image), Err(Error::NotExec));
}

#[test]
fn rejects_other_machine() {
    let mut image = sample_elf();
    put16(&mut image, 18, 3);
    assert_eq!(check(&image), Err(Error::WrongMachine));
}

#[test]
fn rejects_unknown_header_version() {
    let mut image = sample_elf();
    put32(&mut image, 20, 0x101);
    assert_eq!(check(&image), Err(Error::UnsupportedVersion));
}

#[test]
fn checks_in_order() {
    // bad magic and bad class: the magic is checked first
    let mut image = sample_elf();
    image[0] = 0;
    image[4] = 1;
    assert_eq!(check(&image), Err(Error::NotElf));
    // wrong machine in a file too short for the machine field
    let image = sample_elf();
    assert_eq!(check(&image[..20]), Err(Error::UnexpectedEnd));
}

fn headers_of(image: &[u8], pad: usize) -> Result<usize, MemoryError> {
    let words = aligned_words(image, pad);
    let all: &[u8] = bytemuck::cast_slice(&words);
    let elf = Amd64 { data: &all[pad..pad + image.len()] };
    elf.program_headers().map(|v| v.len())
}

#[test]
fn program_headers_need_an_offset() {
    let mut image = sample_elf();
    put64(&mut image, 32, 0);
    assert_eq!(headers_of(&image, 0), Err(MemoryError::UnexpectedEnd));
}

#[test]
fn program_headers_need_the_64_bit_entry_size() {
    let mut image = sample_elf();
    put16(&mut image, 54, 32);
    assert_eq!(headers_of(&image, 0), Err(MemoryError::SizeMismatch));
}

#[test]
fn program_headers_must_fit() {
    let mut image = sample_elf();
    put16(&mut image, 56, 3);
    assert_eq!(headers_of(&image, 0), Err(MemoryError::UnexpectedEnd));
    let mut image = sample_elf();
    put64(&mut image, 32, u64::MAX - 8);
    assert_eq!(headers_of(&image, 0), Err(MemoryError::UnexpectedEnd));
}

#[test]
fn program_headers_must_be_aligned() {
    let mut image = sample_elf();
    image.push(0);
    // move the table one byte on, to offset 65
    let table: Vec<u8> = image[64..64 + 112].to_vec();
    image[65..65 + 112].copy_from_slice(&table);
    put64(&mut image, 32, 65);
    assert_eq!(headers_of(&image, 0), Err(MemoryError::WrongAlignment));
}

#[test]
fn empty_program_header_table() {
    let mut image = sample_elf();
    put16(&mut image, 56, 0);
    assert_eq!(headers_of(&image, 0), Ok(0));
}

#[test]
fn format_codes() {
    assert_eq!(Class::Bits32.code(), 1);
    assert_eq!(Class::Bits64.code(), 2);
    assert_eq!(Data::Lsb.code(), 1);
    assert_eq!(Data::Msb.code(), 2);
    assert_eq!(Type::NoType.code(), 0);
    assert_eq!(Type::Executable.code(), 2);
    assert_eq!(Type::Core.code(), 4);
    assert_eq!(Machine::X86.code(), 3);
    assert_eq!(Machine::X64.code(), 62);
    assert_eq!(Machine::RiscV.code(), 243);
    assert_eq!(OsAbi::SystemV.code(), 0);
    assert_eq!(OsAbi::Arm.code(), 97);
    assert_eq!(OsAbi::Standalone.code(), 255);
    assert_eq!(SegmentType::Load.code(), PT_LOAD);
    assert_eq!(SegmentType::ThreadLocalStorage.code(), 7);
    assert_eq!(EV_CURRENT, 1);
}

#[test]
fn accept_once_alignment_is_known() {
    let image = sample_elf();
    assert!(Amd64::accept(&image, true).is_ok());
    assert!(matches!(Amd64::accept(&image, false), Err(Error::WrongAlignment)));
    let mut bad = sample_elf();
    bad[4] = 1;
    assert!(matches!(Amd64::accept(&bad, true), Err(Error::WrongClass)));
    assert!(matches!(Amd64::accept(&bad, false), Err(Error::WrongAlignment)));
}

#[test]
fn table_read_once_alignment_is_known() {
    let image = sample_elf();
    let elf = Amd64 { data: &image };
    assert_eq!(elf.read_program_header_table(false).map(|v| v.len()), Err(MemoryError::WrongAlignment));
    let headers = elf.read_program_header_table(true).unwrap();
    assert_eq!(headers.len(), 2);
    assert_eq!(headers[1].p_offset, 0x2000);
    let mut short = sample_elf();
    put16(&mut short, 54, 0);
    let elf = Amd64 { data: &short };
    assert_eq!(elf.read_program_header_table(false).map(|v| v.len()), Err(MemoryError::SizeMismatch));
}

#[test]
fn rejects_buffer_four_bytes_off() {
    // 4-aligned but not 8-aligned: rejected whatever `u64` needs on the target
    let image = sample_elf();
    let words = aligned_words(&image, 4);
    let all: &[u8] = bytemuck::cast_slice(&words);
    let shifted = &all[4..4 + image.len()];
    assert!(matches!(Amd64::from_bytes(shifted), Err(Error::WrongAlignment)));
}
