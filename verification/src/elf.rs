use crate::mem::Mem;
use vstd::prelude::*;

verus! {

/// The four magic bytes 0x7F 'E' 'L' 'F', read as a little-endian word.
pub const ELF_MAGIC: u32 = 0x464C457F;

/// Size in bytes of the fixed ELF32 header.
pub const ELF_HEADER_SIZE: usize = 52;

/// Size in bytes of one program-header-table entry.
pub const PROG_HEADER_SIZE: usize = 32;

/// The little-endian 16-bit value held by bytes `i` and `i + 1` of `s`.
pub open spec fn le16(s: Seq<u8>, i: int) -> int {
    s[i] + 256 * s[i + 1]
}

/// The little-endian 32-bit value held by bytes `i` .. `i + 4` of `s`.
pub open spec fn le32(s: Seq<u8>, i: int) -> int {
    s[i] + 256 * s[i + 1] + 65536 * s[i + 2] + 16777216 * s[i + 3]
}

/// Decoded copy of the 52-byte fixed ELF32 header.
pub struct ElfHeader {
    /// Must hold `ELF_MAGIC` for the image to be accepted.
    pub magic: u32,
    /// The twelve identifier bytes after the magic; not interpreted.
    pub elf: Vec<u8>,
    pub file_type: u16,
    pub machine: u16,
    pub version: u32,
    /// Physical address of the image's entry point.
    pub entry: u32,
    /// File offset of the program header table.
    pub phoff: u32,
    /// File offset of the section header table; unused by the loader.
    pub shoff: u32,
    pub flags: u32,
    pub ehsize: u16,
    pub phentsize: u16,
    /// Number of program-header-table entries.
    pub phnum: u16,
    pub shentsize: u16,
    pub shnum: u16,
    pub shstrndx: u16,
}

/// Decoded copy of one 32-byte program-header-table entry, describing one
/// loadable segment.
#[derive(Clone, Copy, PartialEq, Eq, Structural, Debug)]
pub struct ProgHeader {
    pub prog_type: u32,
    /// File offset of the segment's bytes.
    pub off: u32,
    /// Virtual address; unused, the loader works with physical addresses.
    pub vaddr: u32,
    /// Physical destination address of the segment.
    pub paddr: u32,
    /// Bytes the segment occupies in the file.
    pub filesz: u32,
    /// Bytes the segment occupies in memory; at least `filesz`, the excess
    /// is zero-filled.
    pub memsz: u32,
    pub flags: u32,
    pub align: u32,
}

impl Mem {
    /// The little-endian 16-bit value at address `a`.
    pub fn read_u16(&self, a: usize) -> (r: u16)
        requires
            a + 2 <= self@.len(),
        ensures
            r == le16(self@, a as int),
    {
        let _mlen = self.len();
        let b0 = self.read_byte(a);
        let b1 = self.read_byte(a + 1);
        b0 as u16 + 256 * (b1 as u16)
    }

    /// The little-endian 32-bit value at address `a`.
    pub fn read_u32(&self, a: usize) -> (r: u32)
        requires
            a + 4 <= self@.len(),
        ensures
            r == le32(self@, a as int),
    {
        let _mlen = self.len();
        let b0 = self.read_byte(a);
        let b1 = self.read_byte(a + 1);
        let b2 = self.read_byte(a + 2);
        let b3 = self.read_byte(a + 3);
        b0 as u32 + 256 * (b1 as u32) + 65536 * (b2 as u32) + 16777216 * (b3 as u32)
    }
}

/// Interprets the 52 bytes at `loc` as an ELF32 header, copying each
/// fixed-offset field by value.  No validation happens here: checking the
/// magic is the caller's step.
pub fn get_elf_header(mem: &Mem, loc: usize) -> (h: ElfHeader)
    requires
        loc + ELF_HEADER_SIZE <= mem@.len(),
    ensures
        h.magic == le32(mem@, loc as int),
        h.elf@ == mem@.subrange(loc + 4, loc + 16),
        h.file_type == le16(mem@, loc + 16),
        h.machine == le16(mem@, loc + 18),
        h.version == le32(mem@, loc + 20),
        h.entry == le32(mem@, loc + 24),
        h.phoff == le32(mem@, loc + 28),
        h.shoff == le32(mem@, loc + 32),
        h.flags == le32(mem@, loc + 36),
        h.ehsize == le16(mem@, loc + 40),
        h.phentsize == le16(mem@, loc + 42),
        h.phnum == le16(mem@, loc + 44),
        h.shentsize == le16(mem@, loc + 46),
        h.shnum == le16(mem@, loc + 48),
        h.shstrndx == le16(mem@, loc + 50),
{
    let _mlen = mem.len();
    ElfHeader {
        magic: mem.read_u32(loc),
        elf: mem.read_bytes(loc + 4, 12),
        file_type: mem.read_u16(loc + 16),
        machine: mem.read_u16(loc + 18),
        version: mem.read_u32(loc + 20),
        entry: mem.read_u32(loc + 24),
        phoff: mem.read_u32(loc + 28),
        shoff: mem.read_u32(loc + 32),
        flags: mem.read_u32(loc + 36),
        ehsize: mem.read_u16(loc + 40),
        phentsize: mem.read_u16(loc + 42),
        phnum: mem.read_u16(loc + 44),
        shentsize: mem.read_u16(loc + 46),
        shnum: mem.read_u16(loc + 48),
        shstrndx: mem.read_u16(loc + 50),
    }
}

/// Interprets the 32 bytes at `loc` as one program-header-table entry.
pub fn get_prog_header(mem: &Mem, loc: usize) -> (p: ProgHeader)
    requires
        loc + PROG_HEADER_SIZE <= mem@.len(),
    ensures
        p.prog_type == le32(mem@, loc as int),
        p.off == le32(mem@, loc + 4),
        p.vaddr == le32(mem@, loc + 8),
        p.paddr == le32(mem@, loc + 12),
        p.filesz == le32(mem@, loc + 16),
        p.memsz == le32(mem@, loc + 20),
        p.flags == le32(mem@, loc + 24),
        p.align == le32(mem@, loc + 28),
{
    let _mlen = mem.len();
    ProgHeader {
        prog_type: mem.read_u32(loc),
        off: mem.read_u32(loc + 4),
        vaddr: mem.read_u32(loc + 8),
        paddr: mem.read_u32(loc + 12),
        filesz: mem.read_u32(loc + 16),
        memsz: mem.read_u32(loc + 20),
        flags: mem.read_u32(loc + 24),
        align: mem.read_u32(loc + 28),
    }
}

} // verus!
