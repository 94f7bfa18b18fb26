use vstd::prelude::*;

verus! {

/// Entries in a page directory or page table.
pub const PAGE_ENTRIES: usize = 1024;

/// One page-table entry: flag bits in the low word, page frame number in
/// the high bits.  The loader enables no paging; these structures are the
/// scaffolding the loaded kernel starts from.
#[derive(Clone, Copy, PartialEq, Eq, Structural, Debug)]
pub struct PageTableEntry(pub u32);

/// A page directory: 1024 entries, each meant to point at a page table.
pub struct PageDir {
    pub entries: Vec<PageTableEntry>,
}

impl PageDir {
    /// A fresh directory with every entry clear: nothing mapped.
    pub fn new() -> (d: PageDir)
        ensures
            d.entries@.len() == PAGE_ENTRIES,
            forall|i: int| 0 <= i < d.entries@.len() ==> (#[trigger] d.entries@[i]).0 == 0u32,
    {
        let mut entries: Vec<PageTableEntry> = Vec::new();
        while entries.len() < PAGE_ENTRIES
            invariant
                entries@.len() <= PAGE_ENTRIES,
                forall|i: int| 0 <= i < entries@.len() ==> (#[trigger] entries@[i]).0 == 0u32,
            decreases PAGE_ENTRIES - entries@.len(),
        {
            entries.push(PageTableEntry(0));
        }
        PageDir { entries }
    }
}

} // verus!
