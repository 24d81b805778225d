//! The values the loader programs into the x86 control registers, page
//! tables and descriptor table to enter 64-bit long mode with the first
//! gibibyte identity-mapped.

use vstd::prelude::*;

verus! {

/// Page table entry flag: present.
pub const PAGE_PRESENT: u64 = 1;

/// Page table entry flag: writable.
pub const PAGE_WRITABLE: u64 = 2;

/// Page directory pointer entry flag: the entry maps a 1 GiB page.
pub const PAGE_HUGE: u64 = 128;

/// CR4 with physical address extension and global pages on.
pub const CR4_PAE_PGE: u32 = 0b10100000;

/// The extended feature enable register.
pub const EFER_MSR: u32 = 0xC0000080;

/// EFER bit: long mode enable.
pub const EFER_LME: u32 = 0x100;

/// CR0 bits: paging and protection on.
pub const CR0_PG_PE: u32 = 0x80000001;

/// Segment selector of the 64-bit code descriptor.
pub const CODE_SELECTOR: u16 = 8;

/// The limit field of the descriptor table pointer: three descriptors of
/// eight bytes, less one.
pub const GDT_LIMIT: u16 = 23;

/// The descriptor table: the null descriptor, a 64-bit code descriptor
/// (execute/read) and a data descriptor (read/write).
pub fn gdt() -> (g: [u64; 3])
    ensures
        g@ == seq![0u64, 0x0020_9A00_0000_0000u64, 0x0000_9200_0000_0000u64],
{
    let g = [0x00_0_0_00_00_00000000u64, 0x00_2_0_9A_00_00000000u64, 0x00_0_0_92_00_00000000u64];
    assert(g@ =~= seq![0u64, 0x0020_9A00_0000_0000u64, 0x0000_9200_0000_0000u64]);
    g
}

/// The first PML4 entry: the page directory pointer table at `pdpt_addr`,
/// present and writable.
pub fn pml4_entry(pdpt_addr: u64) -> (e: u64)
    ensures
        e == pdpt_addr | 3,
{
    let e = pdpt_addr | PAGE_PRESENT | PAGE_WRITABLE;
    assert(e == pdpt_addr | 3) by (bit_vector)
        requires
            e == pdpt_addr | 1u64 | 2u64,
    ;
    e
}

/// The first page directory pointer entry: the 1 GiB page at physical
/// address zero, present, writable.
pub fn identity_pdpt_entry() -> (e: u64)
    ensures
        e == 0x83,
{
    let e = (0u64 << 30u64) | PAGE_PRESENT | PAGE_WRITABLE | PAGE_HUGE;
    assert(e == 0x83) by (bit_vector)
        requires
            e == (0u64 << 30u64) | 1u64 | 2u64 | 128u64,
    ;
    e
}

/// A PML4 entry for a page-aligned table keeps the table's address in its
/// address bits and has the present and writable flags set, and only them
/// among the low twelve bits.
pub proof fn lemma_pml4_entry_fields(pdpt_addr: u64)
    requires
        pdpt_addr & 0xFFF == 0,
    ensures
        (pdpt_addr | 3) & !0xFFFu64 == pdpt_addr,
        (pdpt_addr | 3) & 0xFFF == 3,
{
    assert((pdpt_addr | 3) & !0xFFFu64 == pdpt_addr) by (bit_vector)
        requires
            pdpt_addr & 0xFFF == 0,
    ;
    assert((pdpt_addr | 3) & 0xFFF == 3) by (bit_vector)
        requires
            pdpt_addr & 0xFFF == 0,
    ;
}

} // verus!
