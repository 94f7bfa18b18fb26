use bootloader::boot::{bootmain, BootAction};
use bootloader::disk::Disk;
use bootloader::mem::Mem;

fn put16(v: &mut Vec<u8>, at: usize, x: u16) {
    v[at] = (x & 0xFF) as u8;
    v[at + 1] = (x >> 8) as u8;
}

fn put32(v: &mut Vec<u8>, at: usize, x: u32) {
    v[at] = (x & 0xFF) as u8;
    v[at + 1] = ((x >> 8) & 0xFF) as u8;
    v[at + 2] = ((x >> 16) & 0xFF) as u8;
    v[at + 3] = (x >> 24) as u8;
}

/// A device holding a one-segment image: header at file offset 0, one
/// program header at 52, twelve payload bytes at 84 destined for 0x20000
/// with four extra in-memory bytes to zero.
fn hello_disk(magic: u32) -> Disk {
    let mut bytes = vec![0u8; 4608];
    let f = 512; // file byte 0 sits at device byte 512
    put32(&mut bytes, f, magic);
    put32(&mut bytes, f + 24, 0x20000); // entry
    put32(&mut bytes, f + 28, 52); // phoff
    put16(&mut bytes, f + 44, 1); // phnum
    put32(&mut bytes, f + 52 + 4, 84); // off
    put32(&mut bytes, f + 52 + 12, 0x20000); // paddr
    put32(&mut bytes, f + 52 + 16, 12); // filesz
    put32(&mut bytes, f + 52 + 20, 16); // memsz
    let payload = b"HELLO_KERNEL";
    for (i, b) in payload.iter().enumerate() {
        bytes[f + 84 + i] = *b;
    }
    Disk::new(bytes)
}

#[test]
fn end_to_end_load_and_jump() {
    let disk = hello_disk(0x464C457F);
    let mut mem = Mem::new_zeroed(0x20200);
    let r = bootmain(&disk, &mut mem);
    assert_eq!(r, BootAction::Jump(0x20000));
    assert_eq!(&mem.bytes[0x20000..0x2000C], b"HELLO_KERNEL");
    assert_eq!(&mem.bytes[0x2000C..0x20010], &[0u8, 0, 0, 0]);
}

#[test]
fn scratch_region_holds_image_head() {
    let disk = hello_disk(0x464C457F);
    let mut mem = Mem::new_zeroed(0x20200);
    bootmain(&disk, &mut mem);
    for k in 0..4096 {
        assert_eq!(mem.bytes[0x10000 + k], disk.bytes[512 + k]);
    }
}

#[test]
fn magic_gate_halts_and_touches_nothing_else() {
    let disk = hello_disk(0x464C4580);
    let mut mem = Mem::new_zeroed(0x20200);
    // Paint the segment's destination so any write there would show.
    for a in 0x20000..0x20010 {
        mem.bytes[a] = 0x55;
    }
    let r = bootmain(&disk, &mut mem);
    assert_eq!(r, BootAction::Halt);
    // No program header was acted on: the destination is untouched.
    for a in 0x20000..0x20010 {
        assert_eq!(mem.bytes[a], 0x55);
    }
    // Only the scratch region changed; it holds the image head.
    for k in 0..4096 {
        assert_eq!(mem.bytes[0x10000 + k], disk.bytes[512 + k]);
    }
    for a in 0..0x10000 {
        assert_eq!(mem.bytes[a], 0);
    }
}

#[test]
fn two_segments_load_in_table_order() {
    let mut bytes = vec![0u8; 4608];
    let f = 512;
    put32(&mut bytes, f, 0x464C457F);
    put32(&mut bytes, f + 24, 0x30000); // entry
    put32(&mut bytes, f + 28, 52); // phoff
    put16(&mut bytes, f + 44, 2); // phnum
    // First segment: 8 bytes at file offset 120 for 0x30000, no excess.
    put32(&mut bytes, f + 52 + 4, 120);
    put32(&mut bytes, f + 52 + 12, 0x30000);
    put32(&mut bytes, f + 52 + 16, 8);
    put32(&mut bytes, f + 52 + 20, 8);
    // Second segment: 4 bytes at file offset 600 for 0x31000, 4 to zero.
    put32(&mut bytes, f + 84 + 4, 600);
    put32(&mut bytes, f + 84 + 12, 0x31000);
    put32(&mut bytes, f + 84 + 16, 4);
    put32(&mut bytes, f + 84 + 20, 8);
    for (i, b) in b"SEGMENT1".iter().enumerate() {
        bytes[f + 120 + i] = *b;
    }
    for (i, b) in b"SEG2".iter().enumerate() {
        bytes[f + 600 + i] = *b;
    }
    let disk = Disk::new(bytes);
    let mut mem = Mem::new_zeroed(0x31300);
    let r = bootmain(&disk, &mut mem);
    assert_eq!(r, BootAction::Jump(0x30000));
    assert_eq!(&mem.bytes[0x30000..0x30008], b"SEGMENT1");
    assert_eq!(&mem.bytes[0x31000..0x31004], b"SEG2");
    assert_eq!(&mem.bytes[0x31004..0x31008], &[0u8, 0, 0, 0]);
}

#[test]
fn segment_beyond_its_file_bytes_is_zeroed_only_after_filesz() {
    // memsz > filesz: the four trailing bytes are zero even though the
    // sector read dragged file bytes over them first, and the twelve
    // file-backed bytes are untouched by the zero fill.
    let disk = hello_disk(0x464C457F);
    let mut mem = Mem::new_zeroed(0x20200);
    bootmain(&disk, &mut mem);
    assert_eq!(&mem.bytes[0x20000..0x2000C], b"HELLO_KERNEL");
    for a in 0x2000C..0x20010 {
        assert_eq!(mem.bytes[a], 0);
    }
}
