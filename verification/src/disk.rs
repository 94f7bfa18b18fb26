use crate::mem::Mem;
use vstd::prelude::*;

verus! {

/// Bytes in one disk sector.
pub const SECTSIZE: usize = 512;

/// Data register of the ATA command block.
pub const DATA_PORT: u16 = 0x1F0;

/// Sector-count register.
pub const SECTOR_COUNT_PORT: u16 = 0x1F2;

/// Lowest LBA byte; the three registers above it hold the higher bytes.
pub const LBA_LOW_PORT: u16 = 0x1F3;

/// Command register on write, status register on read.
pub const COMMAND_PORT: u16 = 0x1F7;

/// The read-sectors command.
pub const READ_COMMAND: u8 = 0x20;

/// Raw block device: sector `l` occupies bytes `[l * 512, l * 512 + 512)`.
/// Sector 0 holds the already-executed boot sector; the kernel image
/// begins at sector 1, so file byte 0 of the image is device byte 512.
pub struct Disk {
    pub bytes: Vec<u8>,
}

/// File byte `off` of the kernel image, as it lies on the device.
pub open spec fn file_byte(d: Seq<u8>, off: int) -> u8 {
    d[512 + off]
}

impl View for Disk {
    type V = Seq<u8>;

    open spec fn view(&self) -> Seq<u8> {
        self.bytes@
    }
}

impl Disk {
    pub fn new(bytes: Vec<u8>) -> (d: Disk)
        ensures
            d@ == bytes@,
    {
        Disk { bytes }
    }

    pub fn len(&self) -> (n: usize)
        ensures
            n == self@.len(),
    {
        self.bytes.len()
    }

    /// One sector transfer: the 512 bytes of sector `lba` land at
    /// `mem[dest .. dest + 512)`; nothing else moves.
    ///
    /// On hardware this is the polling programmed-I/O read (status wait,
    /// command bytes, 128 double-word port reads); here the device is data,
    /// so the transfer is a plain verified copy.
    pub fn readsect(&self, mem: &mut Mem, dest: usize, lba: usize)
        requires
            lba * 512 + 512 <= self@.len(),
            dest + 512 <= old(mem)@.len(),
        ensures
            final(mem)@.len() == old(mem)@.len(),
            forall|a: int|
                dest <= a < dest + 512 ==> #[trigger] final(mem)@[a] == self@[lba * 512 + (a
                    - dest)],
            forall|a: int|
                0 <= a < old(mem)@.len() && !(dest <= a < dest + 512)
                    ==> #[trigger] final(mem)@[a] == old(mem)@[a],
    {
        let dlen = self.bytes.len();
        let mlen = mem.len();
        let base: usize = lba * 512;
        let ghost m0 = mem@;
        let mut j: usize = 0;
        while j < 512
            invariant
                j <= 512,
                base == lba * 512,
                base + 512 <= dlen,
                dlen == self@.len(),
                dest + 512 <= mlen,
                mlen == m0.len(),
                mem@.len() == m0.len(),
                forall|a: int|
                    dest <= a < dest + j ==> #[trigger] mem@[a] == self@[base + (a - dest)],
                forall|a: int|
                    0 <= a < m0.len() && !(dest <= a < dest + j) ==> #[trigger] mem@[a] == m0[a],
            decreases 512 - j,
        {
            let b = self.bytes[base + j];
            mem.write_byte(dest + j, b);
            j = j + 1;
        }
    }
}

/// Status-register decision of the disk poll: the drive is ready for a
/// command or a transfer when the busy bit (0x80) is clear and the ready
/// bit (0x40) is set.  The poll itself has no timeout: the caller spins on
/// the status port until this holds.
pub fn disk_ready(status: u8) -> (r: bool)
    ensures
        r <==> (status & 0xC0) == 0x40,
{
    (status & 0xC0) == 0x40
}

/// The four bytes of a sector number as written to the LBA command-block
/// ports, low to high; the top byte carries the 0xE0 mask that selects
/// drive 0 in LBA28 mode.
pub fn lba_port_bytes(sector: u32) -> (r: (u8, u8, u8, u8))
    ensures
        r.0 == (sector & 0xFF) as u8,
        r.1 == ((sector >> 8) & 0xFF) as u8,
        r.2 == ((sector >> 16) & 0xFF) as u8,
        r.3 == ((sector >> 24) as u8 | 0xE0),
{
    (
        (sector & 0xFF) as u8,
        ((sector >> 8) & 0xFF) as u8,
        ((sector >> 16) & 0xFF) as u8,
        (sector >> 24) as u8 | 0xE0,
    )
}

} // verus!
