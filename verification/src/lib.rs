//! A verified model of a minimal x86 stage-2 boot loader.
//!
//! The loader finds a kernel image at a fixed offset on a raw block device,
//! parses it as an ELF32 executable, copies its program segments to the
//! physical addresses they declare, zero-extends each segment to its full
//! in-memory size, and reports the entry point to jump to.
//!
//! Physical memory and the block device are modelled as flat byte arrays
//! (`mem::Mem`, `disk::Disk`), so every step of the load — sector transfer,
//! alignment rounding, header decoding, segment placement and zero fill —
//! is stated and proved over plain sequences of bytes.  The hardware edge
//! (port reads and writes, the final jump) stays outside the library; the
//! decisions it needs (status decoding, LBA command bytes) are verified
//! functions here.

pub mod boot;
pub mod disk;
pub mod elf;
pub mod loader;
pub mod mem;
pub mod paging;
pub mod serial;
pub mod vga;
