use crate::disk::Disk;
use crate::disk::file_byte;
use crate::elf::ELF_MAGIC;
use crate::elf::le16;
use crate::elf::le32;
use crate::elf::get_elf_header;
use crate::elf::get_prog_header;
use crate::loader::readseg;
use crate::loader::sects_to_read;
use crate::loader::window_hi;
use crate::loader::window_lo;
use crate::loader::zero_range;
use crate::mem::Mem;
use vstd::arithmetic::div_mod::lemma_fundamental_div_mod;
use vstd::prelude::*;

verus! {

/// Fixed scratch physical address where the head of the image is parked
/// while the headers are decoded.
pub const ELF_LOC: usize = 0x10000;

/// How much of the image is bulk-loaded to the scratch address: enough for
/// the ELF header and the program header table.
pub const HDR_BYTES: usize = 0x1000;

/// What the orchestrator ends with: the entry point to jump to, or a
/// permanent halt when the image's magic number is wrong.
#[derive(Clone, Copy, PartialEq, Eq, Structural, Debug)]
pub enum BootAction {
    /// Spin forever; the image was rejected.
    Halt,
    /// Transfer control to this physical address, never to return.
    Jump(u32),
}

/// The image's magic word, as it lies on the device (file byte 0 is device
/// byte 512).
pub open spec fn image_magic(d: Seq<u8>) -> int {
    le32(d, 512)
}

/// The image's declared entry point.
pub open spec fn image_entry(d: Seq<u8>) -> int {
    le32(d, 536)
}

/// File offset of the image's program header table.
pub open spec fn image_phoff(d: Seq<u8>) -> int {
    le32(d, 540)
}

/// Number of program headers the image declares.
pub open spec fn image_phnum(d: Seq<u8>) -> int {
    le16(d, 556)
}

/// Device byte where program header `i` begins.
pub open spec fn ph_base(d: Seq<u8>, i: int) -> int {
    512 + image_phoff(d) + 32 * i
}

/// File offset of segment `i`'s bytes.
pub open spec fn ph_off(d: Seq<u8>, i: int) -> int {
    le32(d, ph_base(d, i) + 4)
}

/// Physical destination address of segment `i`.
pub open spec fn ph_paddr(d: Seq<u8>, i: int) -> int {
    le32(d, ph_base(d, i) + 12)
}

/// Bytes segment `i` occupies in the file.
pub open spec fn ph_filesz(d: Seq<u8>, i: int) -> int {
    le32(d, ph_base(d, i) + 16)
}

/// Bytes segment `i` occupies in memory.
pub open spec fn ph_memsz(d: Seq<u8>, i: int) -> int {
    le32(d, ph_base(d, i) + 20)
}

/// First address loading segment `i` may touch: its destination rounded
/// down to the sector boundary.
pub open spec fn span_lo(d: Seq<u8>, i: int) -> int {
    window_lo(ph_paddr(d, i), ph_off(d, i))
}

/// One past the last address loading segment `i` may touch: the end of the
/// last sector read, or of the zero fill, whichever is further.
pub open spec fn span_hi(d: Seq<u8>, i: int) -> int {
    let rend = window_hi(ph_paddr(d, i), ph_filesz(d, i), ph_off(d, i));
    let mend = ph_paddr(d, i) + ph_memsz(d, i);
    if mend < rend {
        rend
    } else {
        mend
    }
}

/// Segment `i` is loadable: its sizes are consistent, every address its
/// load touches exists in a memory of `mlen` bytes, and every sector its
/// load reads exists on the device.
pub open spec fn seg_ok(d: Seq<u8>, mlen: int, i: int) -> bool {
    &&& ph_filesz(d, i) <= ph_memsz(d, i)
    &&& ph_off(d, i) % 512 <= ph_paddr(d, i)
    &&& span_hi(d, i) <= mlen
    &&& (ph_off(d, i) / 512 + 1) * 512 + 512 * sects_to_read(ph_off(d, i), ph_filesz(d, i))
        <= d.len()
}

/// Loading segment `i` stays clear of the scratch region, so the headers
/// parked there survive the whole load.
pub open spec fn outside_scratch(d: Seq<u8>, i: int) -> bool {
    span_hi(d, i) <= 0x10000 || 0x11000 <= span_lo(d, i)
}

/// Segments `i` and `j` touch disjoint memory, slack and zero fill
/// included.
pub open spec fn spans_disjoint(d: Seq<u8>, i: int, j: int) -> bool {
    span_hi(d, i) <= span_lo(d, j) || span_hi(d, j) <= span_lo(d, i)
}

/// The trust boundary of the loader: what is assumed of the on-disk image
/// and of the machine before boot starts.  The header region must be on
/// the device and the scratch region in memory; a well-magic'd image must
/// keep its program header table inside the bulk-loaded region and declare
/// segments that are loadable, mutually disjoint and clear of the scratch
/// region.  The loader checks none of this at run time — the on-disk
/// image is trusted by design, and a violating image corrupts arbitrary
/// memory — so it is assumed here instead.
pub open spec fn image_ok(d: Seq<u8>, mlen: int) -> bool {
    &&& 0x11000 <= mlen
    &&& 512 * 9 <= d.len()
    &&& (image_magic(d) == ELF_MAGIC ==> {
        &&& image_phoff(d) + 32 * image_phnum(d) <= 0x1000
        &&& (forall|i: int| 0 <= i < image_phnum(d) ==> seg_ok(d, mlen, i))
        &&& (forall|i: int| 0 <= i < image_phnum(d) ==> outside_scratch(d, i))
        &&& (forall|i: int, j: int|
            0 <= i < j < image_phnum(d) ==> spans_disjoint(d, i, j))
    })
}

/// Segment `i` stands in memory: its file-backed bytes equal the file's,
/// its in-memory excess is zero, and the slack around them holds the
/// neighbouring bytes of the sectors that were read.
pub open spec fn seg_placed(d: Seq<u8>, m: Seq<u8>, i: int) -> bool {
    let off = ph_off(d, i);
    let pa = ph_paddr(d, i);
    let fsz = ph_filesz(d, i);
    let msz = ph_memsz(d, i);
    let lo = span_lo(d, i);
    let rhi = window_hi(pa, fsz, off);
    let base = (off / 512 + 1) * 512;
    &&& forall|a: int| pa <= a < pa + fsz ==> #[trigger] m[a] == file_byte(d, off + (a - pa))
    &&& forall|a: int| pa + fsz <= a < pa + msz ==> #[trigger] m[a] == 0u8
    &&& forall|a: int|
        lo <= a < rhi && !(pa + fsz <= a < pa + msz) ==> #[trigger] m[a] == d[base + (a - lo)]
}

/// Address `a` lies in some segment's span.
pub open spec fn in_loaded_span(d: Seq<u8>, a: int) -> bool {
    exists|i: int| 0 <= i < image_phnum(d) && #[trigger] span_lo(d, i) <= a < span_hi(d, i)
}

/// The whole effect of `bootmain` on memory.  The scratch region holds the
/// head of the image either way.  On a magic mismatch the outcome is Halt
/// and nothing else moved; otherwise the outcome is a jump to the image's
/// entry point, every segment stands placed, and memory outside the
/// segments' spans is untouched.
pub open spec fn boot_post(d: Seq<u8>, m0: Seq<u8>, m1: Seq<u8>, r: BootAction) -> bool {
    &&& m1.len() == m0.len()
    &&& forall|a: int| 0x10000 <= a < 0x11000 ==> #[trigger] m1[a] == file_byte(d, a - 0x10000)
    &&& if image_magic(d) != ELF_MAGIC {
        &&& r == BootAction::Halt
        &&& forall|a: int|
            0 <= a < m0.len() && !(0x10000 <= a < 0x11000) ==> #[trigger] m1[a] == m0[a]
    } else {
        &&& r == BootAction::Jump(image_entry(d) as u32)
        &&& (forall|i: int| 0 <= i < image_phnum(d) ==> seg_placed(d, m1, i))
        &&& forall|a: int|
            0 <= a < m0.len() && !(0x10000 <= a < 0x11000) && !in_loaded_span(d, a)
                ==> #[trigger] m1[a] == m0[a]
    }
}

/// The load sequence: bulk-load the head of the image to the scratch
/// address, validate the magic (halting on a mismatch), place each
/// declared segment in ascending table order — file bytes then zero fill —
/// and end with the entry point to jump to.  The jump itself is the
/// caller's irreversible step.
#[verifier::loop_isolation(false)]
#[verifier::rlimit(100)]
pub fn bootmain(disk: &Disk, mem: &mut Mem) -> (r: BootAction)
    requires
        image_ok(disk@, old(mem)@.len() as int),
    ensures
        boot_post(disk@, old(mem)@, final(mem)@, r),
{
    let ghost d = disk@;
    let ghost m0 = old(mem)@;
    let _mlen = mem.len();

    readseg(disk, mem, ELF_LOC, HDR_BYTES, 0);
    proof {
        assert forall|a: int| 0x10000 <= a < 0x11000 implies #[trigger] mem@[a] == file_byte(
            d,
            a - 0x10000,
        ) by {
            assert(window_lo(0x10000, 0) == 0x10000);
            assert(sects_to_read(0, 0x1000) == 8);
        }
    }

    let h = get_elf_header(mem, ELF_LOC);
    proof {
        assert(h.magic == image_magic(d));
        assert(h.entry == image_entry(d));
        assert(h.phoff == image_phoff(d));
        assert(h.phnum == image_phnum(d));
    }

    if h.magic != ELF_MAGIC {
        return BootAction::Halt;
    }

    let phoff = h.phoff as usize;
    let phnum = h.phnum as usize;
    let mut i: usize = 0;
    while i < phnum
        invariant
            i <= phnum,
            mem@.len() == m0.len(),
            forall|a: int|
                0x10000 <= a < 0x11000 ==> #[trigger] mem@[a] == file_byte(d, a - 0x10000),
            forall|k: int| 0 <= k < i ==> seg_placed(d, mem@, k),
            forall|a: int|
                0 <= a < m0.len() && !(0x10000 <= a < 0x11000) && !in_loaded_span(d, a)
                    ==> #[trigger] mem@[a] == m0[a],
        decreases phnum - i,
    {
        let ghost gi = i as int;
        let loc = ELF_LOC + phoff + 32 * i;
        let ph = get_prog_header(mem, loc);
        proof {
            assert(ph_base(d, gi) == 512 + phoff + 32 * gi);
            assert(ph.off == ph_off(d, gi));
            assert(ph.paddr == ph_paddr(d, gi));
            assert(ph.filesz == ph_filesz(d, gi));
            assert(ph.memsz == ph_memsz(d, gi));
            assert(seg_ok(d, m0.len() as int, gi));
        }

        let pa = ph.paddr as usize;
        let off = ph.off as usize;
        let fsz = ph.filesz as usize;
        let msz = ph.memsz as usize;
        let ghost m_before = mem@;

        readseg(disk, mem, pa, fsz, off);
        let ghost m_mid = mem@;

        if msz > fsz {
            zero_range(mem, pa + fsz, msz - fsz);
        }

        proof {
            let lo = span_lo(d, gi);
            let rhi = window_hi(pa as int, fsz as int, off as int);
            let hi = span_hi(d, gi);
            let base = ((off as int) / 512 + 1) * 512;
            assert((off as int) / 512 * 512 + (off as int) % 512 == off) by {
                lemma_fundamental_div_mod(off as int, 512);
            }
            // The whole iteration wrote only inside this segment's span.
            assert forall|a: int|
                0 <= a < m0.len() && !(lo <= a < hi) implies #[trigger] mem@[a]
                == m_before[a] by {
                assert(m_mid[a] == m_before[a]);
            }
            // This segment now stands placed.
            assert(seg_placed(d, mem@, gi)) by {
                assert forall|a: int| pa <= a < pa + fsz implies #[trigger] mem@[a] == file_byte(
                    d,
                    off + (a - pa),
                ) by {
                    assert(m_mid[a] == file_byte(d, off + (a - pa)));
                    assert(mem@[a] == m_mid[a]);
                }
                assert forall|a: int|
                    lo <= a < rhi && !(pa + fsz <= a < pa + msz) implies #[trigger] mem@[a] == d[base
                    + (a - lo)] by {
                    assert(m_mid[a] == d[base + (a - lo)]);
                    assert(mem@[a] == m_mid[a]);
                }
            }
            // The segments already placed were not touched.
            assert forall|k: int| 0 <= k < gi + 1 implies seg_placed(d, mem@, k) by {
                if k < gi {
                    assert(seg_placed(d, m_before, k));
                    assert(seg_ok(d, m0.len() as int, k));
                    assert(spans_disjoint(d, k, gi));
                    assert forall|a: int|
                        span_lo(d, k) <= a < span_hi(d, k) implies #[trigger] mem@[a]
                        == m_before[a] by {
                        assert(0 <= a < m0.len());
                        assert(!(lo <= a < hi));
                    }
                }
            }
            // The scratch region was not touched.
            assert(outside_scratch(d, gi));
            assert forall|a: int| 0x10000 <= a < 0x11000 implies #[trigger] mem@[a] == file_byte(
                d,
                a - 0x10000,
            ) by {
                assert(!(lo <= a < hi));
                assert(mem@[a] == m_before[a]);
            }
            // Untouched memory is still untouched.
            assert forall|a: int|
                0 <= a < m0.len() && !(0x10000 <= a < 0x11000) && !in_loaded_span(d, a)
                implies #[trigger] mem@[a] == m0[a] by {
                assert(!(span_lo(d, gi) <= a < span_hi(d, gi)));
                assert(mem@[a] == m_before[a]);
            }
        }
        i = i + 1;
    }
    BootAction::Jump(h.entry)
}

} // verus!
