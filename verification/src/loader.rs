use crate::disk::Disk;
use crate::disk::file_byte;
use crate::mem::Mem;
use vstd::arithmetic::div_mod::lemma_fundamental_div_mod;
use vstd::prelude::*;

verus! {

/// How many whole sectors a range load reads: the requested bytes plus the
/// leading alignment slack, rounded up to whole sectors.
pub open spec fn sects_to_read(off: int, count: int) -> int {
    (off % 512 + count + 511) / 512
}

/// First address a range load writes: the destination rounded down to the
/// sector boundary containing the first requested byte.
pub open spec fn window_lo(pa: int, off: int) -> int {
    pa - off % 512
}

/// One past the last address a range load writes.
pub open spec fn window_hi(pa: int, count: int, off: int) -> int {
    window_lo(pa, off) + 512 * sects_to_read(off, count)
}

/// Everything `readseg(pa, count, off)` does to memory: the written window
/// holds the image of the sectors containing file bytes
/// `[off, off + count)`, and nothing outside the window moves.
pub open spec fn readseg_post(
    m0: Seq<u8>,
    d: Seq<u8>,
    pa: int,
    count: int,
    off: int,
    m1: Seq<u8>,
) -> bool {
    let lo = window_lo(pa, off);
    let hi = window_hi(pa, count, off);
    let base = (off / 512 + 1) * 512;
    &&& m1.len() == m0.len()
    &&& forall|a: int| lo <= a < hi ==> #[trigger] m1[a] == d[base + (a - lo)]
    &&& forall|a: int| 0 <= a < m0.len() && !(lo <= a < hi) ==> #[trigger] m1[a] == m0[a]
}

/// Bounds of the ceiling division hidden in `sects_to_read`.
proof fn lemma_sects_bounds(off: int, count: int)
    requires
        0 <= off,
        0 <= count,
    ensures
        off % 512 + count <= 512 * sects_to_read(off, count),
        512 * sects_to_read(off, count) < off % 512 + count + 512,
        0 <= sects_to_read(off, count),
{
    let x = off % 512 + count;
    lemma_fundamental_div_mod(x + 511, 512);
    assert(0 <= (x + 511) % 512 < 512) by (nonlinear_arith);
    assert(0 <= off % 512 < 512) by (nonlinear_arith);
    assert(512 * ((x + 511) / 512) == x + 511 - (x + 511) % 512);
    assert(sects_to_read(off, count) >= 0) by (nonlinear_arith)
        requires
            512 * sects_to_read(off, count) == x + 511 - (x + 511) % 512,
            x + 511 - (x + 511) % 512 >= 0,
    ;
}

/// Copies `count` bytes of the kernel image, starting at file byte
/// `offset`, into memory starting at address `pa`, and returns the number
/// of sector reads it issued.
///
/// Only whole sectors can be read, so the transfer starts at the sector
/// boundary containing the first requested byte — the destination is
/// rounded down by `offset % 512` to match — and runs one sector at a time
/// until the requested range is covered, overwriting up to 511 bytes of
/// slack on either side of the range with neighbouring file bytes.
/// File byte 0 lies in sector 1: sector 0 holds the boot sector.
pub fn readseg(disk: &Disk, mem: &mut Mem, pa: usize, count: usize, offset: usize) -> (nreads:
    usize)
    requires
        offset % 512 <= pa,
        pa + count <= old(mem)@.len(),
        window_hi(pa as int, count as int, offset as int) <= old(mem)@.len(),
        (offset / 512 + 1) * 512 + 512 * sects_to_read(offset as int, count as int)
            <= disk@.len(),
    ensures
        nreads == sects_to_read(offset as int, count as int),
        readseg_post(old(mem)@, disk@, pa as int, count as int, offset as int, final(mem)@),
        forall|a: int|
            pa <= a < pa + count ==> #[trigger] final(mem)@[a] == file_byte(
                disk@,
                offset + (a - pa),
            ),
{
    let mlen = mem.len();
    let dlen = disk.len();
    let epa: usize = pa + count;
    let start: usize = pa - offset % 512;
    let first: usize = offset / 512 + 1;
    let ghost nsect = sects_to_read(offset as int, count as int);
    let ghost m0 = mem@;
    proof {
        lemma_sects_bounds(offset as int, count as int);
    }

    let mut cur: usize = start;
    let mut lba: usize = first;
    let mut n: usize = 0;
    while cur < epa
        invariant
            start == pa - offset % 512,
            epa == pa + count,
            first == offset / 512 + 1,
            offset % 512 <= pa,
            nsect == sects_to_read(offset as int, count as int),
            offset % 512 + count <= 512 * nsect,
            512 * nsect < offset % 512 + count + 512,
            start + 512 * nsect <= mlen,
            first * 512 + 512 * nsect <= dlen,
            mlen == m0.len(),
            dlen == disk@.len(),
            0 <= n <= nsect,
            cur == start + 512 * n,
            lba == first + n,
            n < nsect ==> cur < epa,
            mem@.len() == m0.len(),
            forall|a: int|
                start <= a < start + 512 * n ==> #[trigger] mem@[a] == disk@[first * 512 + (a
                    - start)],
            forall|a: int|
                0 <= a < m0.len() && !(start <= a < start + 512 * n) ==> #[trigger] mem@[a]
                    == m0[a],
        decreases nsect - n,
    {
        proof {
            assert(n < nsect);
        }
        disk.readsect(mem, cur, lba);
        cur = cur + 512;
        lba = lba + 1;
        n = n + 1;
    }
    proof {
        assert(n == nsect);
        assert((offset / 512) * 512 + offset % 512 == offset) by {
            lemma_fundamental_div_mod(offset as int, 512);
        }
        assert forall|a: int| pa <= a < pa + count implies #[trigger] final(mem)@[a] == file_byte(
            disk@,
            offset + (a - pa),
        ) by {
            assert(mem@[a] == disk@[first * 512 + (a - start)]);
        }
    }
    n
}

/// Writes zeroes over `mem[start .. start + count)` and touches nothing
/// else: the zero fill of a segment's trailing in-memory bytes.
pub fn zero_range(mem: &mut Mem, start: usize, count: usize)
    requires
        start + count <= old(mem)@.len(),
    ensures
        final(mem)@.len() == old(mem)@.len(),
        forall|a: int| start <= a < start + count ==> #[trigger] final(mem)@[a] == 0u8,
        forall|a: int|
            0 <= a < old(mem)@.len() && !(start <= a < start + count)
                ==> #[trigger] final(mem)@[a] == old(mem)@[a],
{
    let mlen = mem.len();
    let ghost m0 = mem@;
    let mut i: usize = 0;
    while i < count
        invariant
            i <= count,
            start + count <= mlen,
            mlen == m0.len(),
            mem@.len() == m0.len(),
            forall|a: int| start <= a < start + i ==> #[trigger] mem@[a] == 0u8,
            forall|a: int|
                0 <= a < m0.len() && !(start <= a < start + i) ==> #[trigger] mem@[a] == m0[a],
        decreases count - i,
    {
        mem.write_byte(start + i, 0);
        i = i + 1;
    }
}

/// Loading a range is a function of the prior memory, the disk and the
/// arguments alone: two loads with the same arguments from the same state
/// leave the same memory.
pub proof fn lemma_readseg_deterministic(
    m0: Seq<u8>,
    d: Seq<u8>,
    pa: int,
    count: int,
    off: int,
    m1: Seq<u8>,
    m2: Seq<u8>,
)
    requires
        readseg_post(m0, d, pa, count, off, m1),
        readseg_post(m0, d, pa, count, off, m2),
    ensures
        m1 =~= m2,
{
    let lo = window_lo(pa, off);
    let hi = window_hi(pa, count, off);
    assert forall|a: int| 0 <= a < m1.len() implies m1[a] == m2[a] by {
        if !(lo <= a < hi) {
            assert(m1[a] == m0[a]);
            assert(m2[a] == m0[a]);
        }
    }
}

/// Re-running a range load with identical arguments against an unchanged
/// disk changes nothing: the first run already left the written window
/// equal to the disk bytes it reads, and the second run writes nowhere
/// else.
pub proof fn lemma_readseg_idempotent(
    m0: Seq<u8>,
    d: Seq<u8>,
    pa: int,
    count: int,
    off: int,
    m1: Seq<u8>,
    m2: Seq<u8>,
)
    requires
        readseg_post(m0, d, pa, count, off, m1),
        readseg_post(m1, d, pa, count, off, m2),
    ensures
        m2 =~= m1,
{
    let lo = window_lo(pa, off);
    let hi = window_hi(pa, count, off);
    assert forall|a: int| 0 <= a < m1.len() implies m2[a] == m1[a] by {
        if !(lo <= a < hi) {
            assert(m2[a] == m1[a]);
        }
    }
}

} // verus!
