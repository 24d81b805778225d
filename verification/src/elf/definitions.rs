//! Constants, record layouts and code tables of the ELF64 format.

use vstd::prelude::*;

verus! {

/// The four bytes every ELF file starts with: `0x7F 'E' 'L' 'F'`.
pub const MAGIC: [u8; 4] = [0x7Fu8, 0x45u8, 0x4Cu8, 0x46u8];

/// The only ELF version there is.
pub const EV_CURRENT: u8 = 1;

/// Size in bytes of the file header of a 32-bit ELF file.
pub const EHSIZE_X86: usize = 52;

/// Size in bytes of the file header of a 64-bit ELF file.
pub const EHSIZE_X64: usize = 64;

/// Size in bytes of one identification block `e_ident`.
pub const IDENT_SIZE: usize = 16;

/// Size in bytes of one 64-bit program header.
pub const PHENTSIZE_X64: usize = 56;

/// Segment type of a loadable segment.
pub const PT_LOAD: u32 = 1;

/// Segment flag: executable.
pub const PF_X: u32 = 1;

/// Segment flag: writable.
pub const PF_W: u32 = 2;

/// Segment flag: readable.
pub const PF_R: u32 = 4;

/// The identification block at the start of an ELF file.
#[derive(Clone, Copy, Debug)]
pub struct HeaderIdent {
    pub ei_magic: [u8; 4],
    pub ei_class: u8,
    pub ei_data: u8,
    pub ei_version: u8,
    pub ei_osabi: u8,
    pub ei_abiversion: u8,
    pub ei_pad: [u8; 7],
}

/// The file header of a 64-bit ELF file.
///
/// The three file offsets and the entry point are `None` where the file
/// holds zero, as a non-zero 64-bit value would be.
#[derive(Clone, Copy, Debug)]
pub struct Header {
    pub e_ident: HeaderIdent,
    pub e_type: u16,
    pub e_machine: u16,
    pub e_version: u32,
    pub e_entry: Option<u64>,
    pub e_phoff: Option<u64>,
    pub e_shoff: Option<u64>,
    pub e_flags: u32,
    pub e_ehsize: u16,
    pub e_phentsize: u16,
    pub e_phnum: u16,
    pub e_shentsize: u16,
    pub e_shnum: u16,
    pub e_shstrndx: u16,
}

/// One entry of the program header table of a 64-bit ELF file.
#[derive(Clone, Copy, Debug)]
pub struct ProgramHeader {
    pub p_type: u32,
    pub p_flags: u32,
    pub p_offset: u64,
    pub p_vaddr: u64,
    /// Some linkers leave this zero and some set it to `p_vaddr`.
    pub p_paddr: u64,
    pub p_filesz: u64,
    pub p_memsz: u64,
    pub p_align: u64,
}

/// The word size an ELF file is built for (`ei_class`).
#[derive(Clone, Copy, Debug, PartialEq, Eq, Structural)]
pub enum Class {
    Bits32,
    Bits64,
}

impl Class {
    /// The code of this class in `ei_class`.
    pub open spec fn spec_code(self) -> u8 {
        match self {
            Class::Bits32 => 1,
            Class::Bits64 => 2,
        }
    }

    pub fn code(&self) -> (r: u8)
        ensures
            r == self.spec_code(),
    {
        match self {
            Class::Bits32 => 1,
            Class::Bits64 => 2,
        }
    }
}

/// The byte order of an ELF file (`ei_data`).
#[derive(Clone, Copy, Debug, PartialEq, Eq, Structural)]
pub enum Data {
    Lsb,
    Msb,
}

impl Data {
    /// The code of this byte order in `ei_data`.
    pub open spec fn spec_code(self) -> u8 {
        match self {
            Data::Lsb => 1,
            Data::Msb => 2,
        }
    }

    pub fn code(&self) -> (r: u8)
        ensures
            r == self.spec_code(),
    {
        match self {
            Data::Lsb => 1,
            Data::Msb => 2,
        }
    }
}

/// The kind of an ELF file (`e_type`).
#[derive(Clone, Copy, Debug, PartialEq, Eq, Structural)]
pub enum Type {
    /// No file type (`ET_NONE`).
    NoType,
    Relocatable,
    Executable,
    SharedObject,
    Core,
}

impl Type {
    /// The code of this kind in `e_type`.
    pub open spec fn spec_code(self) -> u16 {
        match self {
            Type::NoType => 0,
            Type::Relocatable => 1,
            Type::Executable => 2,
            Type::SharedObject => 3,
            Type::Core => 4,
        }
    }

    pub fn code(&self) -> (r: u16)
        ensures
            r == self.spec_code(),
    {
        match self {
            Type::NoType => 0,
            Type::Relocatable => 1,
            Type::Executable => 2,
            Type::SharedObject => 3,
            Type::Core => 4,
        }
    }
}

/// The instruction set an ELF file is built for (`e_machine`).
#[derive(Clone, Copy, Debug, PartialEq, Eq, Structural)]
pub enum Machine {
    /// No machine (`EM_NONE`).
    NoMachine,
    PowerPC,
    Power64,
    Arm,
    X86,
    X64,
    AmdGpu,
    RiscV,
}

impl Machine {
    /// The code of this instruction set in `e_machine`.
    pub open spec fn spec_code(self) -> u16 {
        match self {
            Machine::NoMachine => 0,
            Machine::PowerPC => 20,
            Machine::Power64 => 21,
            Machine::Arm => 40,
            Machine::X86 => 3,
            Machine::X64 => 62,
            Machine::AmdGpu => 224,
            Machine::RiscV => 243,
        }
    }

    pub fn code(&self) -> (r: u16)
        ensures
            r == self.spec_code(),
    {
        match self {
            Machine::NoMachine => 0,
            Machine::PowerPC => 20,
            Machine::Power64 => 21,
            Machine::Arm => 40,
            Machine::X86 => 3,
            Machine::X64 => 62,
            Machine::AmdGpu => 224,
            Machine::RiscV => 243,
        }
    }
}

/// The operating system ABI an ELF file is built for (`ei_osabi`).
#[derive(Clone, Copy, Debug, PartialEq, Eq, Structural)]
pub enum OsAbi {
    /// UNIX System V ABI.
    SystemV,
    Hpux,
    NetBSD,
    /// Object uses GNU ELF extensions.
    GnuLinux,
    Solaris,
    Aix,
    Irix,
    FreeBSD,
    Tru64,
    Modesto,
    OpenBSD,
    ArmAEABI,
    Arm,
    /// Standalone (embedded) application.
    Standalone,
}

impl OsAbi {
    /// The code of this ABI in `ei_osabi`.
    pub open spec fn spec_code(self) -> u8 {
        match self {
            OsAbi::SystemV => 0,
            OsAbi::Hpux => 1,
            OsAbi::NetBSD => 2,
            OsAbi::GnuLinux => 3,
            OsAbi::Solaris => 6,
            OsAbi::Aix => 7,
            OsAbi::Irix => 8,
            OsAbi::FreeBSD => 9,
            OsAbi::Tru64 => 10,
            OsAbi::Modesto => 11,
            OsAbi::OpenBSD => 12,
            OsAbi::ArmAEABI => 64,
            OsAbi::Arm => 97,
            OsAbi::Standalone => 255,
        }
    }

    pub fn code(&self) -> (r: u8)
        ensures
            r == self.spec_code(),
    {
        match self {
            OsAbi::SystemV => 0,
            OsAbi::Hpux => 1,
            OsAbi::NetBSD => 2,
            OsAbi::GnuLinux => 3,
            OsAbi::Solaris => 6,
            OsAbi::Aix => 7,
            OsAbi::Irix => 8,
            OsAbi::FreeBSD => 9,
            OsAbi::Tru64 => 10,
            OsAbi::Modesto => 11,
            OsAbi::OpenBSD => 12,
            OsAbi::ArmAEABI => 64,
            OsAbi::Arm => 97,
            OsAbi::Standalone => 255,
        }
    }
}

/// The kind of a segment (`p_type`).
#[derive(Clone, Copy, Debug, PartialEq, Eq, Structural)]
pub enum SegmentType {
    Null,
    Load,
    Dynamic,
    Interpreter,
    Note,
    SharedLib,
    ProgramHeader,
    ThreadLocalStorage,
}

impl SegmentType {
    /// The code of this segment kind in `p_type`.
    pub open spec fn spec_code(self) -> u32 {
        match self {
            SegmentType::Null => 0,
            SegmentType::Load => 1,
            SegmentType::Dynamic => 2,
            SegmentType::Interpreter => 3,
            SegmentType::Note => 4,
            SegmentType::SharedLib => 5,
            SegmentType::ProgramHeader => 6,
            SegmentType::ThreadLocalStorage => 7,
        }
    }

    pub fn code(&self) -> (r: u32)
        ensures
            r == self.spec_code(),
    {
        match self {
            SegmentType::Null => 0,
            SegmentType::Load => 1,
            SegmentType::Dynamic => 2,
            SegmentType::Interpreter => 3,
            SegmentType::Note => 4,
            SegmentType::SharedLib => 5,
            SegmentType::ProgramHeader => 6,
            SegmentType::ThreadLocalStorage => 7,
        }
    }
}

} // verus!
