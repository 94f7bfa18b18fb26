use bootloader::disk::{disk_ready, lba_port_bytes, Disk};
use bootloader::mem::Mem;
use bootloader::paging::PageDir;
use bootloader::serial::Serial;
use bootloader::vga::{Color, VGACell};

#[test]
fn disk_ready_decision() {
    // Ready and not busy.
    assert!(disk_ready(0x40));
    assert!(disk_ready(0x41));
    assert!(disk_ready(0x50));
    // Busy, or not ready, or both.
    assert!(!disk_ready(0x80));
    assert!(!disk_ready(0xC0));
    assert!(!disk_ready(0x00));
    assert!(!disk_ready(0x3F));
}

#[test]
fn lba_bytes_carry_drive_select_mask() {
    let (b0, b1, b2, b3) = lba_port_bytes(0x01020304);
    assert_eq!(b0, 0x04);
    assert_eq!(b1, 0x03);
    assert_eq!(b2, 0x02);
    assert_eq!(b3, 0x01 | 0xE0);
    let (c0, c1, c2, c3) = lba_port_bytes(9);
    assert_eq!((c0, c1, c2, c3), (9, 0, 0, 0xE0));
}

#[test]
fn sector_read_copies_exactly_one_sector() {
    let mut bytes = vec![0u8; 1536];
    for i in 0..1536 {
        bytes[i] = (i % 251) as u8;
    }
    let disk = Disk::new(bytes);
    let mut mem = Mem::new_zeroed(1024);
    disk.readsect(&mut mem, 100, 2);
    for j in 0..512 {
        assert_eq!(mem.bytes[100 + j], ((1024 + j) % 251) as u8);
    }
    for a in 0..100 {
        assert_eq!(mem.bytes[a], 0);
    }
    for a in 612..1024 {
        assert_eq!(mem.bytes[a], 0);
    }
}

#[test]
fn serial_decisions() {
    let _s = Serial::new();
    assert_eq!(Serial::divisor_bytes(2), (0, 2));
    assert_eq!(Serial::divisor_bytes(0x1234), (0x12, 0x34));
    assert!(Serial::line_ready(0x20));
    assert!(Serial::line_ready(0xFF));
    assert!(!Serial::line_ready(0x00));
    assert!(!Serial::line_ready(0xDF));
}

#[test]
fn vga_cell_packs_colors() {
    let c = VGACell::new(b'A', Color::White, Color::Blue);
    assert_eq!(c.character, b'A');
    assert_eq!(c.color, 0x1F);
    let d = VGACell::new(b' ', Color::LightGrey, Color::Black);
    assert_eq!(d.color, 0x07);
    assert_eq!(Color::Black.code(), 0);
    assert_eq!(Color::White.code(), 15);
    assert_eq!(Color::LightBrown.code(), 14);
}

#[test]
fn page_dir_starts_empty() {
    let d = PageDir::new();
    assert_eq!(d.entries.len(), 1024);
    assert!(d.entries.iter().all(|e| e.0 == 0));
}

#[test]
fn zeroed_memory_and_read_back() {
    let mem = Mem::new_zeroed(100);
    assert_eq!(mem.len(), 100);
    assert_eq!(mem.read_byte(99), 0);
    let m2 = Mem {
        bytes: vec![1, 2, 3, 4, 5],
    };
    assert_eq!(m2.read_bytes(1, 3), vec![2, 3, 4]);
}
