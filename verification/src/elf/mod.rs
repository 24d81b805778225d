//! Reading a 64-bit little-endian ELF executable for x86-64.

pub mod definitions;

use vstd::prelude::*;
use crate::le::{le16, le32, le64, read_u16, read_u32, read_u64};
use vstd::slice::slice_subrange;
use crate::elf::definitions::{
    Class, Data, Header, HeaderIdent, Machine, OsAbi, ProgramHeader, Type, EHSIZE_X64, EV_CURRENT,
    IDENT_SIZE, PHENTSIZE_X64,
};

verus! {

/// Errors of locating and reading the program header table.
#[derive(Clone, Copy, Debug, PartialEq, Eq, Structural)]
pub enum MemoryError {
    WrongAlignment,
    UnexpectedEnd,
    SizeMismatch,
}

/// Reasons for which a byte string is not accepted as an x86-64 executable.
#[derive(Clone, Copy, Debug, PartialEq, Eq, Structural)]
pub enum Error {
    WrongAlignment,
    UnexpectedEnd,
    NotElf,
    NotExec,
    WrongClass,
    WrongEndianess,
    WrongOsAbi,
    WrongMachine,
    UnsupportedVersion,
}

/// An ELF file that has passed [`Amd64::from_bytes`]: a 64-bit, little-endian,
/// System V executable for x86-64.
pub struct Amd64<'a> {
    pub data: &'a [u8],
}

/// A 64-bit field in which zero stands for "absent".
pub open spec fn non_zero(x: u64) -> Option<u64> {
    if x == 0 {
        None
    } else {
        Some(x)
    }
}

fn non_zero_exec(x: u64) -> (r: Option<u64>)
    ensures
        r == non_zero(x),
{
    if x == 0 {
        None
    } else {
        Some(x)
    }
}

// ---------------------------------------------------------------------------
// Record layouts

/// `id` is the identification block held by the first 16 bytes of `s`.
pub open spec fn ident_at(id: HeaderIdent, s: Seq<u8>) -> bool {
    &&& s.len() >= IDENT_SIZE
    &&& id.ei_magic@ == s.subrange(0, 4)
    &&& id.ei_class == s[4]
    &&& id.ei_data == s[5]
    &&& id.ei_version == s[6]
    &&& id.ei_osabi == s[7]
    &&& id.ei_abiversion == s[8]
    &&& id.ei_pad@ == s.subrange(9, 16)
}

/// `h` is the file header held by the first 64 bytes of `s`.
pub open spec fn header_at(h: Header, s: Seq<u8>) -> bool {
    &&& s.len() >= EHSIZE_X64
    &&& ident_at(h.e_ident, s)
    &&& h.e_type == le16(s, 16)
    &&& h.e_machine == le16(s, 18)
    &&& h.e_version == le32(s, 20)
    &&& h.e_entry == non_zero(le64(s, 24))
    &&& h.e_phoff == non_zero(le64(s, 32))
    &&& h.e_shoff == non_zero(le64(s, 40))
    &&& h.e_flags == le32(s, 48)
    &&& h.e_ehsize == le16(s, 52)
    &&& h.e_phentsize == le16(s, 54)
    &&& h.e_phnum == le16(s, 56)
    &&& h.e_shentsize == le16(s, 58)
    &&& h.e_shnum == le16(s, 60)
    &&& h.e_shstrndx == le16(s, 62)
}

/// `p` is the program header held by the 56 bytes of `s` from `off` on.
pub open spec fn program_header_at(p: ProgramHeader, s: Seq<u8>, off: int) -> bool {
    &&& 0 <= off
    &&& off + PHENTSIZE_X64 <= s.len()
    &&& p.p_type == le32(s, off)
    &&& p.p_flags == le32(s, off + 4)
    &&& p.p_offset == le64(s, off + 8)
    &&& p.p_vaddr == le64(s, off + 16)
    &&& p.p_paddr == le64(s, off + 24)
    &&& p.p_filesz == le64(s, off + 32)
    &&& p.p_memsz == le64(s, off + 40)
    &&& p.p_align == le64(s, off + 48)
}

/// `v` are the consecutive program headers held by `s` from `start` on.
pub open spec fn program_headers_at(v: Seq<ProgramHeader>, s: Seq<u8>, start: int) -> bool {
    forall|i: int|
        0 <= i < v.len() ==> #[trigger] program_header_at(
            v[i],
            s,
            start + i * PHENTSIZE_X64,
        )
}

/// Reads the identification block from the start of `s`.
pub fn read_ident(s: &[u8]) -> (id: HeaderIdent)
    requires
        s@.len() >= IDENT_SIZE,
    ensures
        ident_at(id, s@),
{
    let id = HeaderIdent {
        ei_magic: [s[0], s[1], s[2], s[3]],
        ei_class: s[4],
        ei_data: s[5],
        ei_version: s[6],
        ei_osabi: s[7],
        ei_abiversion: s[8],
        ei_pad: [s[9], s[10], s[11], s[12], s[13], s[14], s[15]],
    };
    assert(id.ei_magic@ =~= s@.subrange(0, 4));
    assert(id.ei_pad@ =~= s@.subrange(9, 16));
    id
}

/// Reads the file header from the start of `s`.
pub fn read_header(s: &[u8]) -> (h: Header)
    requires
        s@.len() >= EHSIZE_X64,
    ensures
        header_at(h, s@),
{
    Header {
        e_ident: read_ident(s),
        e_type: read_u16(s, 16),
        e_machine: read_u16(s, 18),
        e_version: read_u32(s, 20),
        e_entry: non_zero_exec(read_u64(s, 24)),
        e_phoff: non_zero_exec(read_u64(s, 32)),
        e_shoff: non_zero_exec(read_u64(s, 40)),
        e_flags: read_u32(s, 48),
        e_ehsize: read_u16(s, 52),
        e_phentsize: read_u16(s, 54),
        e_phnum: read_u16(s, 56),
        e_shentsize: read_u16(s, 58),
        e_shnum: read_u16(s, 60),
        e_shstrndx: read_u16(s, 62),
    }
}

/// Reads the program header held by the 56 bytes of `s` from `off` on.
pub fn read_program_header(s: &[u8], off: usize) -> (p: ProgramHeader)
    requires
        off + PHENTSIZE_X64 <= s.len(),
    ensures
        program_header_at(p, s@, off as int),
{
    ProgramHeader {
        p_type: read_u32(s, off),
        p_flags: read_u32(s, off + 4),
        p_offset: read_u64(s, off + 8),
        p_vaddr: read_u64(s, off + 16),
        p_paddr: read_u64(s, off + 24),
        p_filesz: read_u64(s, off + 32),
        p_memsz: read_u64(s, off + 40),
        p_align: read_u64(s, off + 48),
    }
}

/// Reads `count` program headers held back to back by `s` from `start` on.
pub fn read_program_headers(s: &[u8], start: usize, count: usize) -> (v: Vec<ProgramHeader>)
    requires
        start + count * PHENTSIZE_X64 <= s.len(),
    ensures
        v@.len() == count,
        program_headers_at(v@, s@, start as int),
{
    let mut v: Vec<ProgramHeader> = Vec::new();
    let mut i: usize = 0;
    while i < count
        invariant
            start + count * PHENTSIZE_X64 <= s.len(),
            i <= count,
            v@.len() == i,
            program_headers_at(v@, s@, start as int),
        decreases count - i,
    {
        assert(start + i * PHENTSIZE_X64 + PHENTSIZE_X64 <= s.len()) by (nonlinear_arith)
            requires
                i < count,
                start + count * 56 <= s.len(),
        ;
        let p = read_program_header(s, start + i * PHENTSIZE_X64);
        v.push(p);
        i = i + 1;
    }
    v
}

// ---------------------------------------------------------------------------
// Checks

/// The bytes of [`definitions::MAGIC`].
pub open spec fn spec_magic() -> Seq<u8> {
    seq![0x7Fu8, 0x45u8, 0x4Cu8, 0x46u8]
}

/// What [`Amd64::validate`] reports of the file `s`: the checks in the
/// order in which they are made; alignment is not among them.
pub open spec fn spec_validate(s: Seq<u8>) -> Result<(), Error> {
    if s.len() < IDENT_SIZE {
        Err(Error::UnexpectedEnd)
    } else if s.subrange(0, 4) != spec_magic() {
        Err(Error::NotElf)
    } else if s[4] != Class::Bits64.spec_code() {
        Err(Error::WrongClass)
    } else if s[5] != Data::Lsb.spec_code() {
        Err(Error::WrongEndianess)
    } else if s[6] != EV_CURRENT {
        Err(Error::UnsupportedVersion)
    } else if s[7] != OsAbi::SystemV.spec_code() {
        Err(Error::WrongOsAbi)
    } else if s[8] != 0 {
        Err(Error::WrongOsAbi)
    } else if s.len() < EHSIZE_X64 {
        Err(Error::UnexpectedEnd)
    } else if le16(s, 16) != Type::Executable.spec_code() {
        Err(Error::NotExec)
    } else if le16(s, 18) != Machine::X64.spec_code() {
        Err(Error::WrongMachine)
    } else if le32(s, 20) != EV_CURRENT as u32 {
        Err(Error::UnsupportedVersion)
    } else {
        Ok(())
    }
}

/// Where the program header table of `s` lies, as a byte range, or why it
/// cannot be had.
pub open spec fn spec_table_range(s: Seq<u8>) -> Result<(int, int), MemoryError> {
    let phoff = le64(s, 32);
    let end = phoff + le16(s, 56) * PHENTSIZE_X64;
    if phoff == 0 {
        Err(MemoryError::UnexpectedEnd)
    } else if phoff > usize::MAX {
        Err(MemoryError::UnexpectedEnd)
    } else if le16(s, 54) != PHENTSIZE_X64 {
        Err(MemoryError::SizeMismatch)
    } else if end > s.len() {
        Err(MemoryError::UnexpectedEnd)
    } else {
        Ok((phoff as int, end))
    }
}

/// What `bytemuck::try_cast_slice::<u8, u64>` answers, one variant for each
/// of its outcomes.
enum WordCast {
    Cast,
    TargetAlignmentGreaterAndInputNotAligned,
    OutputSliceWouldHaveSlop,
    SizeMismatch,
    AlignmentMismatch,
}

/// Asks `bytemuck::try_cast_slice::<u8, u64>` whether `bytes` can be seen as
/// a slice of `u64`. Its source checks the address of `bytes` against the
/// alignment of `u64` first, then whether the length is a multiple of 8; it
/// never answers `SizeMismatch` or `AlignmentMismatch` for this pair of types.
/// Whether the address is aligned is not stated: it is not a function of the
/// bytes.
#[verifier::external_body]
fn try_cast_to_words(bytes: &[u8]) -> (r: WordCast)
    ensures
        r is Cast ==> bytes@.len() % 8 == 0,
        r is OutputSliceWouldHaveSlop ==> bytes@.len() % 8 != 0,
        !(r is SizeMismatch),
        !(r is AlignmentMismatch),
{
    match bytemuck::try_cast_slice::<u8, u64>(bytes) {
        Ok(_) => WordCast::Cast,
        Err(bytemuck::PodCastError::TargetAlignmentGreaterAndInputNotAligned) => {
            WordCast::TargetAlignmentGreaterAndInputNotAligned
        },
        Err(bytemuck::PodCastError::OutputSliceWouldHaveSlop) => WordCast::OutputSliceWouldHaveSlop,
        Err(bytemuck::PodCastError::SizeMismatch) => WordCast::SizeMismatch,
        Err(bytemuck::PodCastError::AlignmentMismatch) => WordCast::AlignmentMismatch,
    }
}

/// Whether `bytes` starts at an address aligned for `u64`, as bytemuck
/// judges it; this is the alignment a table of program headers needs.
fn is_word_aligned(bytes: &[u8]) -> (r: bool) {
    match try_cast_to_words(bytes) {
        WordCast::TargetAlignmentGreaterAndInputNotAligned => false,
        _ => true,
    }
}

/// The address of the first byte of `bytes`, from `<[u8]>::as_ptr`. Nothing
/// is stated of it: it is where the buffer lies, not a function of its bytes.
#[verifier::external_body]
fn buffer_address(bytes: &[u8]) -> (r: usize) {
    bytes.as_ptr() as usize
}

/// Whether `bytes` starts at an address that is a multiple of 8.
fn starts_at_multiple_of_8(bytes: &[u8]) -> (r: bool) {
    buffer_address(bytes) % 8 == 0
}

impl<'a> Amd64<'a> {
    /// Runs every check of [`Amd64::from_bytes`] but the alignment of the
    /// buffer, in the same order.
    pub fn validate(elf: &[u8]) -> (r: Result<(), Error>)
        ensures
            r == spec_validate(elf@),
    {
        if elf.len() < IDENT_SIZE {
            return Err(Error::UnexpectedEnd);
        }
        let ident = read_ident(elf);
        if !(ident.ei_magic[0] == 0x7F && ident.ei_magic[1] == 0x45 && ident.ei_magic[2] == 0x4C
            && ident.ei_magic[3] == 0x46) {
            assert(elf@.subrange(0, 4) != spec_magic()) by {
                if elf@.subrange(0, 4) == spec_magic() {
                    assert(ident.ei_magic@[0] == spec_magic()[0]);
                    assert(ident.ei_magic@[1] == spec_magic()[1]);
                    assert(ident.ei_magic@[2] == spec_magic()[2]);
                    assert(ident.ei_magic@[3] == spec_magic()[3]);
                }
            }
            return Err(Error::NotElf);
        }
        assert(elf@.subrange(0, 4) =~= spec_magic()) by {
            assert(ident.ei_magic@ == elf@.subrange(0, 4));
        }
        if ident.ei_class != Class::Bits64.code() {
            return Err(Error::WrongClass);
        }
        if ident.ei_data != Data::Lsb.code() {
            return Err(Error::WrongEndianess);
        }
        if ident.ei_version != EV_CURRENT {
            return Err(Error::UnsupportedVersion);
        }
        if ident.ei_osabi != OsAbi::SystemV.code() {
            return Err(Error::WrongOsAbi);
        }
        if ident.ei_abiversion != 0 {
            return Err(Error::WrongOsAbi);
        }
        if elf.len() < EHSIZE_X64 {
            return Err(Error::UnexpectedEnd);
        }
        let header = read_header(elf);
        if header.e_type != Type::Executable.code() {
            return Err(Error::NotExec);
        }
        if header.e_machine != Machine::X64.code() {
            return Err(Error::WrongMachine);
        }
        if header.e_version != EV_CURRENT as u32 {
            return Err(Error::UnsupportedVersion);
        }
        Ok(())
    }

    /// Accepts `elf` as an x86-64 executable. The buffer must start at an
    /// address that is a multiple of 8; whether it does is not a function of its
    /// bytes, so of a buffer that passes [`Amd64::validate`] this states only
    /// that the result is that buffer or `WrongAlignment`.
    pub fn from_bytes(elf: &'a [u8]) -> (r: Result<Self, Error>)
        ensures
            r matches Ok(a) ==> a.data@ == elf@ && spec_validate(elf@) is Ok,
            r matches Err(e) ==> e == Error::WrongAlignment || spec_validate(elf@) == Err::<
                (),
                Error,
            >(e),
            spec_validate(elf@) is Err ==> r is Err,
    {
        Self::accept(elf, starts_at_multiple_of_8(elf))
    }

    /// [`Amd64::from_bytes`] once the alignment of the buffer is known:
    /// `aligned` tells whether it starts at an address that is a multiple of 8.
    pub fn accept(elf: &'a [u8], aligned: bool) -> (r: Result<Self, Error>)
        ensures
            !aligned ==> r == Err::<Self, Error>(Error::WrongAlignment),
            aligned ==> (r matches Ok(a) ==> a.data@ == elf@ && spec_validate(elf@) is Ok),
            aligned ==> (r matches Err(e) ==> spec_validate(elf@) == Err::<(), Error>(e)),
            aligned ==> (spec_validate(elf@) is Err ==> r is Err),
    {
        if !aligned {
            return Err(Error::WrongAlignment);
        }
        match Self::validate(elf) {
            Ok(()) => Ok(Amd64 { data: elf }),
            Err(e) => Err(e),
        }
    }

    /// The file header.
    pub fn header(&self) -> (h: Header)
        requires
            self.data@.len() >= EHSIZE_X64,
        ensures
            header_at(h, self.data@),
    {
        read_header(self.data)
    }

    /// The byte range `start..end` of the program header table.
    pub fn program_header_table(&self) -> (r: Result<(usize, usize), MemoryError>)
        requires
            self.data@.len() >= EHSIZE_X64,
        ensures
            r matches Ok((start, end)) ==> spec_table_range(self.data@) == Ok::<
                (int, int),
                MemoryError,
            >((start as int, end as int)),
            r matches Err(e) ==> spec_table_range(self.data@) == Err::<(int, int), MemoryError>(
                e,
            ),
    {
        let header = self.header();
        let phoff = match header.e_phoff {
            Some(x) => x,
            None => return Err(MemoryError::UnexpectedEnd),
        };
        if phoff > usize::MAX as u64 {
            return Err(MemoryError::UnexpectedEnd);
        }
        let start = phoff as usize;
        if header.e_phentsize as usize != PHENTSIZE_X64 {
            return Err(MemoryError::SizeMismatch);
        }
        let len_bytes = header.e_phnum as usize * PHENTSIZE_X64;
        if start > self.data.len() || len_bytes > self.data.len() - start {
            return Err(MemoryError::UnexpectedEnd);
        }
        Ok((start, start + len_bytes))
    }

    /// The program headers. The table must start at an address aligned for
    /// `u64`; whether it does is not a function of the bytes, so where the
    /// table can be located this states only that the result is the table or
    /// `WrongAlignment`.
    pub fn program_headers(&self) -> (r: Result<Vec<ProgramHeader>, MemoryError>)
        requires
            self.data@.len() >= EHSIZE_X64,
        ensures
            spec_table_range(self.data@) matches Err(e) ==> r == Err::<
                Vec<ProgramHeader>,
                MemoryError,
            >(e),
            spec_table_range(self.data@) matches Ok((start, end)) ==> (r matches Err(e)
                ==> e == MemoryError::WrongAlignment),
            spec_table_range(self.data@) matches Ok((start, end)) ==> (r matches Ok(v) ==> {
                &&& v@.len() * PHENTSIZE_X64 == end - start
                &&& program_headers_at(v@, self.data@, start)
            }),
    {
        let aligned = match self.program_header_table() {
            Ok((start, end)) => is_word_aligned(slice_subrange(self.data, start, end)),
            Err(_) => true,
        };
        self.read_program_header_table(aligned)
    }

    /// [`Amd64::program_headers`] once the alignment of the table is known:
    /// `aligned` tells whether it starts at an address aligned for `u64`.
    pub fn read_program_header_table(&self, aligned: bool) -> (r: Result<
        Vec<ProgramHeader>,
        MemoryError,
    >)
        requires
            self.data@.len() >= EHSIZE_X64,
        ensures
            spec_table_range(self.data@) matches Err(e) ==> r == Err::<
                Vec<ProgramHeader>,
                MemoryError,
            >(e),
            spec_table_range(self.data@) is Ok && !aligned ==> r == Err::<
                Vec<ProgramHeader>,
                MemoryError,
            >(MemoryError::WrongAlignment),
            aligned ==> (spec_table_range(self.data@) matches Ok((start, end)) ==> (r matches Ok(
                v,
            ) && v@.len() * PHENTSIZE_X64 == end - start && program_headers_at(
                v@,
                self.data@,
                start,
            ))),
    {
        let (start, end) = match self.program_header_table() {
            Ok(range) => range,
            Err(e) => return Err(e),
        };
        if !aligned {
            return Err(MemoryError::WrongAlignment);
        }
        let count = (end - start) / PHENTSIZE_X64;
        let v = read_program_headers(self.data, start, count);
        Ok(v)
    }
}

/// The header of an accepted file describes a 64-bit, little-endian, current
/// version, System V executable for x86-64.
pub proof fn lemma_accepted_header(s: Seq<u8>, h: Header)
    requires
        spec_validate(s) is Ok,
        header_at(h, s),
    ensures
        h.e_ident.ei_magic@ == spec_magic(),
        h.e_ident.ei_class == Class::Bits64.spec_code(),
        h.e_ident.ei_data == Data::Lsb.spec_code(),
        h.e_ident.ei_version == EV_CURRENT,
        h.e_ident.ei_osabi == OsAbi::SystemV.spec_code(),
        h.e_ident.ei_abiversion == 0,
        h.e_type == Type::Executable.spec_code(),
        h.e_machine == Machine::X64.spec_code(),
        h.e_version == EV_CURRENT as u32,
{
}

} // verus!
