//! The multiboot (version 1) boot protocol as seen by a 32-bit loader: the
//! header it carries, and the information record the boot loader leaves in
//! memory.
//!
//! Physical memory is given as a byte string `mem` whose index is the
//! physical address; a pointer of the record is an index into it, and zero is
//! the null pointer.

use vstd::prelude::*;
use vstd::slice::slice_subrange;
use crate::le::{le32, read_u32};

verus! {

/// The value a multiboot header starts with.
pub const MAGIC: i32 = 0x1BADB002;

/// Header flag: modules are loaded on page boundaries.
pub const ALIGN_MODULES: i32 = 1;

/// Header flag: the information record carries the memory limits.
pub const MEMINFO: i32 = 2;

/// The flags this kernel's header asks for.
pub const FLAGS: i32 = 3;

/// The third word of the header: the three words add up to zero.
pub const CHECKSUM: i32 = 0 - MAGIC - FLAGS;

/// What a multiboot loader hands over in `eax`.
pub const BOOTLOADER_MAGIC: i32 = 0x2BADB002;

/// Size in bytes of a module record.
pub const MODULE_SIZE: usize = 16;

/// Size in bytes of the part of the information record that is read.
pub const INFO_SIZE: usize = 52;

/// Size in bytes of a memory map entry as read, its size field included.
pub const MEMORY_ENTRY_SIZE: usize = 24;

/// The three words of the multiboot header.
pub fn header() -> (h: [i32; 3])
    ensures
        h@ == seq![MAGIC, FLAGS, CHECKSUM],
{
    let h = [MAGIC, FLAGS, CHECKSUM];
    assert(h@ =~= seq![MAGIC, FLAGS, CHECKSUM]);
    h
}

/// The multiboot header is well formed: its flags are the two it names and
/// its three words add up to zero, as the multiboot specification requires
/// of the checksum.
pub proof fn lemma_header_checksum()
    ensures
        MAGIC + FLAGS + CHECKSUM == 0,
        FLAGS == ALIGN_MODULES | MEMINFO,
{
    assert(1i32 | 2i32 == 3i32) by (bit_vector);
}

// ---------------------------------------------------------------------------
// C strings

/// A NUL byte lies at `addr` or after it in `mem`.
pub open spec fn c_string_ends(mem: Seq<u8>, addr: int) -> bool {
    exists|j: int| addr <= j < mem.len() && mem[j] == 0
}

/// `len` is the length of the NUL-terminated string at `addr`.
pub open spec fn c_string_len(mem: Seq<u8>, addr: int, len: int) -> bool {
    &&& 0 <= addr
    &&& 0 <= len
    &&& addr + len < mem.len()
    &&& mem[addr + len] == 0
    &&& forall|k: int| addr <= k < addr + len ==> mem[k] != 0
}

/// The length of the NUL-terminated string at `addr`.
pub fn strlen(mem: &[u8], addr: usize) -> (len: usize)
    requires
        c_string_ends(mem@, addr as int),
    ensures
        c_string_len(mem@, addr as int, len as int),
        addr + len < mem.len(),
{
    let mut i: usize = addr;
    while mem[i] != 0
        invariant
            addr <= i < mem@.len(),
            c_string_ends(mem@, addr as int),
            forall|k: int| addr <= k < i ==> mem@[k] != 0,
        decreases mem@.len() - i,
    {
        assert(i + 1 < mem@.len()) by {
            let j = choose|j: int| addr <= j < mem@.len() && mem@[j] == 0;
            assert(j != i);
            if j < i {
                assert(mem@[j] != 0);
            }
        }
        i = i + 1;
    }
    i - addr
}

/// The bytes of the NUL-terminated string at `addr`, without the NUL.
pub fn c_string<'m>(mem: &'m [u8], addr: usize) -> (s: &'m [u8])
    requires
        c_string_ends(mem@, addr as int),
    ensures
        exists|len: int|
            c_string_len(mem@, addr as int, len) && s@ == mem@.subrange(
                addr as int,
                addr + len,
            ),
{
    let len = strlen(mem, addr);
    slice_subrange(mem, addr, addr + len)
}

// ---------------------------------------------------------------------------
// Modules

/// A boot module: a file the boot loader placed in memory.
#[derive(Clone, Copy, Debug)]
pub struct Module {
    pub start: u32,
    pub end: u32,
    pub string: u32,
    pub reserved: u32,
}

/// `m` is the module record held by `mem` at `addr`.
pub open spec fn module_at(m: Module, mem: Seq<u8>, addr: int) -> bool {
    &&& 0 <= addr
    &&& addr + MODULE_SIZE <= mem.len()
    &&& m.start == le32(mem, addr)
    &&& m.end == le32(mem, addr + 4)
    &&& m.string == le32(mem, addr + 8)
    &&& m.reserved == le32(mem, addr + 12)
}

impl Module {
    /// Reads the module record at `addr`.
    pub fn read(mem: &[u8], addr: usize) -> (m: Module)
        requires
            addr + MODULE_SIZE <= mem.len(),
        ensures
            module_at(m, mem@, addr as int),
    {
        Module {
            start: read_u32(mem, addr),
            end: read_u32(mem, addr + 4),
            string: read_u32(mem, addr + 8),
            reserved: read_u32(mem, addr + 12),
        }
    }

    /// The module's contents, `start..end`; empty where `end` lies before
    /// `start`.
    pub fn bytes<'m>(&self, mem: &'m [u8]) -> (b: &'m [u8])
        requires
            self.start <= self.end ==> self.end <= mem@.len(),
        ensures
            self.end < self.start ==> b@ == Seq::<u8>::empty(),
            self.start <= self.end ==> b@ == mem@.subrange(self.start as int, self.end as int),
    {
        if self.end < self.start {
            return slice_subrange(mem, 0, 0);
        }
        slice_subrange(mem, self.start as usize, self.end as usize)
    }

    /// The module's command line, as bytes; empty where the loader gave none.
    pub fn name<'m>(&self, mem: &'m [u8]) -> (s: &'m [u8])
        requires
            self.string != 0 ==> c_string_ends(mem@, self.string as int),
        ensures
            self.string == 0 ==> s@ == Seq::<u8>::empty(),
            self.string != 0 ==> exists|len: int|
                c_string_len(mem@, self.string as int, len) && s@ == mem@.subrange(
                    self.string as int,
                    self.string + len,
                ),
    {
        if self.string == 0 {
            return slice_subrange(mem, 0, 0);
        }
        c_string(mem, self.string as usize)
    }
}

// ---------------------------------------------------------------------------
// Memory map

/// The kind of a memory map entry.
#[derive(Clone, Copy, Debug, PartialEq, Eq, Structural)]
pub enum MemoryEntryType {
    AvaliableRam,
    AcpiInfo,
    HibernationReserved,
    DefectiveRamModule,
    Reserved,
}

impl MemoryEntryType {
    /// The kind a type code of the memory map stands for; codes other than
    /// 1, 3, 4 and 5 stand for reserved memory.
    pub open spec fn spec_from_integer(x: u32) -> MemoryEntryType {
        if x == 1 {
            MemoryEntryType::AvaliableRam
        } else if x == 3 {
            MemoryEntryType::AcpiInfo
        } else if x == 4 {
            MemoryEntryType::HibernationReserved
        } else if x == 5 {
            MemoryEntryType::DefectiveRamModule
        } else {
            MemoryEntryType::Reserved
        }
    }

    pub fn from_integer(x: u32) -> (t: MemoryEntryType)
        ensures
            t == Self::spec_from_integer(x),
    {
        match x {
            1 => MemoryEntryType::AvaliableRam,
            2 => MemoryEntryType::Reserved,
            3 => MemoryEntryType::AcpiInfo,
            4 => MemoryEntryType::HibernationReserved,
            5 => MemoryEntryType::DefectiveRamModule,
            _ => MemoryEntryType::Reserved,
        }
    }

    /// The number this kind carries as a discriminant.
    pub open spec fn spec_code(self) -> u32 {
        match self {
            MemoryEntryType::AvaliableRam => 1,
            MemoryEntryType::AcpiInfo => 3,
            MemoryEntryType::HibernationReserved => 4,
            MemoryEntryType::DefectiveRamModule => 5,
            MemoryEntryType::Reserved => 6,
        }
    }

    pub fn code(&self) -> (r: u32)
        ensures
            r == self.spec_code(),
    {
        match self {
            MemoryEntryType::AvaliableRam => 1,
            MemoryEntryType::AcpiInfo => 3,
            MemoryEntryType::HibernationReserved => 4,
            MemoryEntryType::DefectiveRamModule => 5,
            MemoryEntryType::Reserved => 6,
        }
    }
}

/// Every kind is given back by the code it carries.
pub proof fn lemma_entry_type_code_round_trip(t: MemoryEntryType)
    ensures
        MemoryEntryType::spec_from_integer(t.spec_code()) == t,
{
}

/// An entry of the memory map. `size` counts the bytes after the size field.
#[derive(Clone, Copy, Debug)]
pub struct MemoryEntry {
    pub size: u32,
    pub base_addr: [u32; 2],
    pub length: [u32; 2],
    pub mtype: u32,
}

/// `e` is the memory map entry held by `mem` at `addr`.
pub open spec fn memory_entry_at(e: MemoryEntry, mem: Seq<u8>, addr: int) -> bool {
    &&& 0 <= addr
    &&& addr + MEMORY_ENTRY_SIZE <= mem.len()
    &&& e.size == le32(mem, addr)
    &&& e.base_addr@ == seq![le32(mem, addr + 4), le32(mem, addr + 8)]
    &&& e.length@ == seq![le32(mem, addr + 12), le32(mem, addr + 16)]
    &&& e.mtype == le32(mem, addr + 20)
}

/// The 64-bit value of a pair of 32-bit halves, low half first.
pub open spec fn join_halves(h: Seq<u32>) -> u64 {
    (h[0] + h[1] * 0x1_0000_0000) as u64
}

fn join(lo: u32, hi: u32) -> (r: u64)
    ensures
        r == lo + hi * 0x1_0000_0000,
{
    let r = lo as u64 | (hi as u64) << 32u64;
    assert(lo as u64 | (hi as u64) << 32u64 == lo + hi * 0x1_0000_0000) by (bit_vector);
    r
}

impl MemoryEntry {
    /// Reads the memory map entry at `addr`.
    pub fn read(mem: &[u8], addr: usize) -> (e: MemoryEntry)
        requires
            addr + MEMORY_ENTRY_SIZE <= mem.len(),
        ensures
            memory_entry_at(e, mem@, addr as int),
    {
        let e = MemoryEntry {
            size: read_u32(mem, addr),
            base_addr: [read_u32(mem, addr + 4), read_u32(mem, addr + 8)],
            length: [read_u32(mem, addr + 12), read_u32(mem, addr + 16)],
            mtype: read_u32(mem, addr + 20),
        };
        assert(e.base_addr@ =~= seq![le32(mem@, addr + 4), le32(mem@, addr + 8)]);
        assert(e.length@ =~= seq![le32(mem@, addr + 12), le32(mem@, addr + 16)]);
        e
    }

    /// The first physical address of the region.
    pub fn base_addr(&self) -> (r: u64)
        ensures
            r == join_halves(self.base_addr@),
    {
        join(self.base_addr[0], self.base_addr[1])
    }

    /// The length in bytes of the region.
    pub fn length(&self) -> (r: u64)
        ensures
            r == join_halves(self.length@),
    {
        join(self.length[0], self.length[1])
    }

    /// The kind of the region.
    pub fn entry_type(&self) -> (t: MemoryEntryType)
        ensures
            t == MemoryEntryType::spec_from_integer(self.mtype),
    {
        MemoryEntryType::from_integer(self.mtype)
    }
}

/// A walk over the memory map: the entries from `current` up to `end`.
#[derive(Clone, Copy, Debug)]
pub struct MemoryMapIter {
    pub current: u32,
    pub end: u32,
}

impl MemoryMapIter {
    /// The next step of the walk can be taken in `mem`: the entry lies in it
    /// and the address after it is a 32-bit address.
    pub open spec fn can_step(self, mem: Seq<u8>) -> bool {
        self.current < self.end ==> {
            &&& self.current + MEMORY_ENTRY_SIZE <= mem.len()
            &&& self.current + le32(mem, self.current as int) + 4 <= u32::MAX
        }
    }

    /// The next entry of the map; `None` once the walk has reached its end.
    /// Each step moves on by the entry's size plus the size field itself, so
    /// by at least four bytes, and the walk comes to an end.
    pub fn next(&mut self, mem: &[u8]) -> (r: Option<MemoryEntry>)
        requires
            old(self).can_step(mem@),
        ensures
            old(self).current >= old(self).end ==> r is None && *final(self) == *old(self),
            old(self).current < old(self).end ==> {
                &&& r matches Some(e) && memory_entry_at(e, mem@, old(self).current as int)
                &&& final(self).current == old(self).current + le32(
                    mem@,
                    old(self).current as int,
                ) + 4
                &&& final(self).end == old(self).end
            },
    {
        if self.current >= self.end {
            return None;
        }
        let entry = MemoryEntry::read(mem, self.current as usize);
        self.current = self.current + entry.size + 4;
        Some(entry)
    }
}

// ---------------------------------------------------------------------------
// The information record

/// The multiboot information record, as far as this loader reads it.
#[derive(Clone, Copy, Debug)]
pub struct Info {
    pub flags: u32,
    pub mem_lower: u32,
    pub mem_upper: u32,
    pub boot_device: [u8; 4],
    pub cmdline: u32,
    pub mods_count: u32,
    pub mods_addr: u32,
    pub syms: [u32; 4],
    pub mmap_length: u32,
    pub mmap_addr: u32,
}

/// `info` is the information record held by `mem` at `addr`.
pub open spec fn info_at(info: Info, mem: Seq<u8>, addr: int) -> bool {
    &&& 0 <= addr
    &&& addr + INFO_SIZE <= mem.len()
    &&& info.flags == le32(mem, addr)
    &&& info.mem_lower == le32(mem, addr + 4)
    &&& info.mem_upper == le32(mem, addr + 8)
    &&& info.boot_device@ == mem.subrange(addr + 12, addr + 16)
    &&& info.cmdline == le32(mem, addr + 16)
    &&& info.mods_count == le32(mem, addr + 20)
    &&& info.mods_addr == le32(mem, addr + 24)
    &&& info.syms@ == seq![
        le32(mem, addr + 28),
        le32(mem, addr + 32),
        le32(mem, addr + 36),
        le32(mem, addr + 40),
    ]
    &&& info.mmap_length == le32(mem, addr + 44)
    &&& info.mmap_addr == le32(mem, addr + 48)
}

/// `v` are the `v.len()` module records held back to back by `mem` from
/// `addr` on.
pub open spec fn modules_at(v: Seq<Module>, mem: Seq<u8>, addr: int) -> bool {
    forall|i: int| 0 <= i < v.len() ==> #[trigger] module_at(v[i], mem, addr + i * MODULE_SIZE)
}

impl Info {
    /// Reads the information record at `addr`.
    pub fn read(mem: &[u8], addr: usize) -> (info: Info)
        requires
            addr + INFO_SIZE <= mem.len(),
        ensures
            info_at(info, mem@, addr as int),
    {
        let info = Info {
            flags: read_u32(mem, addr),
            mem_lower: read_u32(mem, addr + 4),
            mem_upper: read_u32(mem, addr + 8),
            boot_device: [mem[addr + 12], mem[addr + 13], mem[addr + 14], mem[addr + 15]],
            cmdline: read_u32(mem, addr + 16),
            mods_count: read_u32(mem, addr + 20),
            mods_addr: read_u32(mem, addr + 24),
            syms: [
                read_u32(mem, addr + 28),
                read_u32(mem, addr + 32),
                read_u32(mem, addr + 36),
                read_u32(mem, addr + 40),
            ],
            mmap_length: read_u32(mem, addr + 44),
            mmap_addr: read_u32(mem, addr + 48),
        };
        assert(info.boot_device@ =~= mem@.subrange(addr + 12, addr + 16));
        assert(info.syms@ =~= seq![
            le32(mem@, addr + 28),
            le32(mem@, addr + 32),
            le32(mem@, addr + 36),
            le32(mem@, addr + 40),
        ]);
        info
    }

    /// Lower and upper memory in KiB, where the loader gave them (flag bit 0).
    pub fn memory_limits(&self) -> (r: Option<(u32, u32)>)
        ensures
            self.flags & 1 == 0 ==> r is None,
            self.flags & 1 != 0 ==> r == Some((self.mem_lower, self.mem_upper)),
    {
        if self.flags & 1 == 0 {
            return None;
        }
        Some((self.mem_lower, self.mem_upper))
    }

    /// The kernel command line, as bytes; empty where the loader gave none
    /// (flag bit 2 clear, or a null pointer).
    pub fn cmdline<'m>(&self, mem: &'m [u8]) -> (s: &'m [u8])
        requires
            self.flags & 4 != 0 && self.cmdline != 0 ==> c_string_ends(
                mem@,
                self.cmdline as int,
            ),
        ensures
            self.flags & 4 == 0 || self.cmdline == 0 ==> s@ == Seq::<u8>::empty(),
            self.flags & 4 != 0 && self.cmdline != 0 ==> exists|len: int|
                c_string_len(mem@, self.cmdline as int, len) && s@ == mem@.subrange(
                    self.cmdline as int,
                    self.cmdline + len,
                ),
    {
        if self.flags & 4 == 0 {
            return slice_subrange(mem, 0, 0);
        }
        if self.cmdline == 0 {
            return slice_subrange(mem, 0, 0);
        }
        c_string(mem, self.cmdline as usize)
    }

    /// The boot modules; none where the loader gave none (flag bit 3 clear,
    /// or a null pointer).
    pub fn modules(&self, mem: &[u8]) -> (v: Vec<Module>)
        requires
            self.flags & 8 != 0 && self.mods_addr != 0 ==> self.mods_addr + self.mods_count
                * MODULE_SIZE <= mem.len(),
        ensures
            self.flags & 8 == 0 || self.mods_addr == 0 ==> v@.len() == 0,
            self.flags & 8 != 0 && self.mods_addr != 0 ==> {
                &&& v@.len() == self.mods_count
                &&& modules_at(v@, mem@, self.mods_addr as int)
            },
    {
        let mut v: Vec<Module> = Vec::new();
        if self.flags & 8 == 0 {
            return v;
        }
        if self.mods_addr == 0 {
            return v;
        }
        let base = self.mods_addr as usize;
        let count = self.mods_count as usize;
        let mut i: usize = 0;
        while i < count
            invariant
                base == self.mods_addr,
                count == self.mods_count,
                base + count * MODULE_SIZE <= mem.len(),
                i <= count,
                v@.len() == i,
                modules_at(v@, mem@, base as int),
            decreases count - i,
        {
            assert(base + i * MODULE_SIZE + MODULE_SIZE <= mem.len()) by (nonlinear_arith)
                requires
                    i < count,
                    base + count * 16 <= mem.len(),
            ;
            let m = Module::read(mem, base + i * MODULE_SIZE);
            v.push(m);
            i = i + 1;
        }
        v
    }

    /// The module the kernel is loaded from: the first one, where the loader
    /// gave any.
    pub fn kernel_module(&self, mem: &[u8]) -> (m: Option<Module>)
        requires
            self.flags & 8 != 0 && self.mods_addr != 0 ==> self.mods_addr + self.mods_count
                * MODULE_SIZE <= mem.len(),
        ensures
            self.flags & 8 == 0 || self.mods_addr == 0 || self.mods_count == 0 ==> m is None,
            self.flags & 8 != 0 && self.mods_addr != 0 && self.mods_count != 0 ==> (m matches Some(
                k,
            ) && module_at(k, mem@, self.mods_addr as int)),
    {
        let mods = self.modules(mem);
        if mods.len() == 0 {
            None
        } else {
            proof {
                assert(module_at(mods@[0], mem@, self.mods_addr + 0 * MODULE_SIZE));
            }
            Some(mods[0])
        }
    }

    /// A walk over the memory map, where the loader gave one (flag bit 6).
    pub fn memory_map(&self) -> (r: Option<MemoryMapIter>)
        requires
            self.flags & 64 != 0 ==> self.mmap_addr + self.mmap_length <= u32::MAX,
        ensures
            self.flags & 64 == 0 ==> r is None,
            self.flags & 64 != 0 ==> r == Some(
                MemoryMapIter {
                    current: self.mmap_addr,
                    end: (self.mmap_addr + self.mmap_length) as u32,
                },
            ),
    {
        if self.flags & 64 == 0 {
            return None;
        }
        Some(MemoryMapIter { current: self.mmap_addr, end: self.mmap_addr + self.mmap_length })
    }
}

} // verus!
