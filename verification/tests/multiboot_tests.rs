use soveu_kernel::multiboot::{
    c_string, header, strlen, Info, MemoryEntry, MemoryEntryType, MemoryMapIter, Module,
    ALIGN_MODULES, BOOTLOADER_MAGIC, CHECKSUM, FLAGS, MAGIC, MEMINFO,
};

fn put32(b: &mut [u8], off: usize, v: u32) {
    b[off..off + 4].copy_from_slice(&v.to_le_bytes());
}

/// A small physical memory image:
/// - 0x100: information record
/// - 0x200: command line "root=/dev/sda"
/// - 0x300: two module records
/// - 0x400: kernel module bytes, 0x440: its name "kernel"
/// - 0x500: memory map with two entries
fn memory() -> Vec<u8> {
    let mut m = vec![0xAAu8; 0x600];
    let info = 0x100;
    put32(&mut m, info, 1 | 4 | 8 | 64);
    put32(&mut m, info + 4, 639);
    put32(&mut m, info + 8, 130048);
    m[info + 12..info + 16].copy_from_slice(&[0x80, 0xFF, 0xFF, 0xFF]);
    put32(&mut m, info + 16, 0x200);
    put32(&mut m, info + 20, 2);
    put32(&mut m, info + 24, 0x300);
    for k in 0..4 {
        put32(&mut m, info + 28 + 4 * k, 0);
    }
    put32(&mut m, info + 44, 48);
    put32(&mut m, info + 48, 0x500);

    let cmd = b"root=/dev/sda\0";
    m[0x200..0x200 + cmd.len()].copy_from_slice(cmd);

    put32(&mut m, 0x300, 0x400);
    put32(&mut m, 0x304, 0x420);
    put32(&mut m, 0x308, 0x440);
    put32(&mut m, 0x30C, 0);
    put32(&mut m, 0x310, 0x480);
    put32(&mut m, 0x314, 0x470);
    put32(&mut m, 0x318, 0);
    put32(&mut m, 0x31C, 0);
    for i in 0..0x20 {
        m[0x400 + i] = i as u8;
    }
    let name = b"kernel\0";
    m[0x440..0x440 + name.len()].copy_from_slice(name);

    // entry 1: available RAM 0..0x9FC00
    put32(&mut m, 0x500, 20);
    put32(&mut m, 0x504, 0);
    put32(&mut m, 0x508, 0);
    put32(&mut m, 0x50C, 0x9FC00);
    put32(&mut m, 0x510, 0);
    put32(&mut m, 0x514, 1);
    // entry 2: reserved region above 4 GiB
    put32(&mut m, 0x518, 20);
    put32(&mut m, 0x51C, 0x0000_0000);
    put32(&mut m, 0x520, 0x1);
    put32(&mut m, 0x524, 0x1000_0000);
    put32(&mut m, 0x528, 0x2);
    put32(&mut m, 0x52C, 2);
    m
}

#[test]
fn header_words_sum_to_zero() {
    let h = header();
    assert_eq!(h, [MAGIC, FLAGS, CHECKSUM]);
    assert_eq!(h[0].wrapping_add(h[1]).wrapping_add(h[2]), 0);
    assert_eq!(FLAGS, ALIGN_MODULES | MEMINFO);
    assert_eq!(MAGIC, 0x1BADB002);
    assert_eq!(BOOTLOADER_MAGIC, 0x2BADB002);
}

#[test]
fn strlen_counts_to_nul() {
    let m = memory();
    assert_eq!(strlen(&m, 0x200), 13);
    assert_eq!(strlen(&m, 0x205), 8);
    assert_eq!(strlen(&m, 0x20D), 0);
    assert_eq!(c_string(&m, 0x200), b"root=/dev/sda");
}

#[test]
fn reads_information_record() {
    let m = memory();
    let info = Info::read(&m, 0x100);
    assert_eq!(info.flags, 0x4D);
    assert_eq!(info.boot_device, [0x80, 0xFF, 0xFF, 0xFF]);
    assert_eq!(info.memory_limits(), Some((639, 130048)));
    assert_eq!(info.cmdline(&m), b"root=/dev/sda");
}

#[test]
fn missing_fields_read_empty() {
    let m = memory();
    let mut info = Info::read(&m, 0x100);
    info.flags = 0;
    assert_eq!(info.memory_limits(), None);
    assert_eq!(info.cmdline(&m), b"");
    assert!(info.modules(&m).is_empty());
    assert!(info.kernel_module(&m).is_none());
    assert!(info.memory_map().is_none());
    let mut info = Info::read(&m, 0x100);
    info.cmdline = 0;
    info.mods_addr = 0;
    assert_eq!(info.cmdline(&m), b"");
    assert!(info.modules(&m).is_empty());
}

#[test]
fn reads_modules() {
    let m = memory();
    let info = Info::read(&m, 0x100);
    let mods = info.modules(&m);
    assert_eq!(mods.len(), 2);
    assert_eq!(mods[0].start, 0x400);
    assert_eq!(mods[0].end, 0x420);
    let expected: Vec<u8> = (0..0x20).collect();
    assert_eq!(mods[0].bytes(&m), &expected[..]);
    assert_eq!(mods[0].name(&m), b"kernel");
    // a module whose end lies before its start is empty, one without a
    // string has no name
    assert_eq!(mods[1].bytes(&m), b"");
    assert_eq!(mods[1].name(&m), b"");
    let kernel = info.kernel_module(&m).unwrap();
    assert_eq!(kernel.start, 0x400);
}

#[test]
fn module_read_matches_fields() {
    let m = memory();
    let module = Module::read(&m, 0x300);
    assert_eq!((module.start, module.end, module.string, module.reserved), (0x400, 0x420, 0x440, 0));
}

#[test]
fn walks_memory_map() {
    let m = memory();
    let info = Info::read(&m, 0x100);
    let mut iter = info.memory_map().unwrap();
    assert_eq!((iter.current, iter.end), (0x500, 0x530));
    let first = iter.next(&m).unwrap();
    assert_eq!(first.base_addr(), 0);
    assert_eq!(first.length(), 0x9FC00);
    assert_eq!(first.entry_type(), MemoryEntryType::AvaliableRam);
    assert_eq!(iter.current, 0x518);
    let second = iter.next(&m).unwrap();
    assert_eq!(second.base_addr(), 0x1_0000_0000);
    assert_eq!(second.length(), 0x2_1000_0000);
    assert_eq!(second.mtype, 2);
    assert_eq!(second.entry_type(), MemoryEntryType::Reserved);
    assert!(iter.next(&m).is_none());
    assert!(iter.next(&m).is_none());
}

#[test]
fn memory_entry_read() {
    let m = memory();
    let e = MemoryEntry::read(&m, 0x518);
    assert_eq!(e.size, 20);
    assert_eq!(e.base_addr, [0, 1]);
    assert_eq!(e.length, [0x1000_0000, 2]);
}

#[test]
fn empty_walk_ends_at_once() {
    let m = memory();
    let mut iter = MemoryMapIter { current: 0x500, end: 0x500 };
    assert!(iter.next(&m).is_none());
    assert_eq!(iter.current, 0x500);
}

#[test]
fn memory_entry_types() {
    assert_eq!(MemoryEntryType::from_integer(1), MemoryEntryType::AvaliableRam);
    assert_eq!(MemoryEntryType::from_integer(2), MemoryEntryType::Reserved);
    assert_eq!(MemoryEntryType::from_integer(3), MemoryEntryType::AcpiInfo);
    assert_eq!(MemoryEntryType::from_integer(4), MemoryEntryType::HibernationReserved);
    assert_eq!(MemoryEntryType::from_integer(5), MemoryEntryType::DefectiveRamModule);
    assert_eq!(MemoryEntryType::from_integer(0), MemoryEntryType::Reserved);
    assert_eq!(MemoryEntryType::from_integer(77), MemoryEntryType::Reserved);
    for t in [
        MemoryEntryType::AvaliableRam,
        MemoryEntryType::AcpiInfo,
        MemoryEntryType::HibernationReserved,
        MemoryEntryType::DefectiveRamModule,
        MemoryEntryType::Reserved,
    ] {
        assert_eq!(MemoryEntryType::from_integer(t.code()), t);
    }
    assert_eq!(MemoryEntryType::Reserved.code(), 6);
}

#[test]
fn c_string_after_a_nul() {
    let m = b"\0abc\0xyz".to_vec();
    assert_eq!(strlen(&m, 1), 3);
    assert_eq!(c_string(&m, 1), b"abc");
    let module = Module { start: 0, end: 0, string: 1, reserved: 0 };
    assert_eq!(module.name(&m), b"abc");
}
