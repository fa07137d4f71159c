//! Tests of device behaviour beyond the component tests: floppy errors,
//! scancodes and the interrupt controller's priorities

use ezpc::components::floppy::{DiskError, DiskGeometry, FloppyDisk, SaveError};
use std::path::{Path, PathBuf};
use ezpc::components::pic::Pic;
use ezpc::scancode::{keycode_to_scancode, physical_key_to_scancode, KeyCode, PhysicalKey};

#[test]
fn test_floppy_errors() {
    let g = DiskGeometry::new(40, 1, 8, 512);
    let mut disk = FloppyDisk::new(g);
    assert_eq!(disk.write_sector(0, 1, 1, &[1, 2, 3]), Err(DiskError::InvalidAddress));
    assert!(!disk.is_dirty());
    disk.write_sector(0, 0, 8, &[1, 2, 3]).unwrap();
    let s = disk.read_sector(0, 0, 8).unwrap();
    assert_eq!(&s[0..4], &[1, 2, 3, 0]);
    disk.set_write_protected(true);
    assert_eq!(disk.write_sector(0, 0, 1, &[9]), Err(DiskError::WriteProtected));
    assert_eq!(disk.format_track(0, 0, 0xF6), Err(DiskError::WriteProtected));
}

#[test]
fn test_floppy_from_image() {
    let disk = FloppyDisk::from_image(vec![0u8; 163_840], None).unwrap();
    assert_eq!(disk.geometry(), DiskGeometry::new(40, 1, 8, 512));
    assert!(disk.is_write_protected());
    assert!(FloppyDisk::from_image(vec![0u8; 1000], None).is_none());
}

#[test]
fn test_physical_keys() {
    assert_eq!(physical_key_to_scancode(PhysicalKey::Code(KeyCode::KeyQ)), Some(0x10));
    assert_eq!(physical_key_to_scancode(PhysicalKey::Unidentified), None);
    assert_eq!(keycode_to_scancode(KeyCode::F12), None);
    assert_eq!(keycode_to_scancode(KeyCode::Other), None);
    // Break code of a key is its make code with bit 7 set
    assert_eq!(keycode_to_scancode(KeyCode::KeyA).map(|m| m | 0x80), Some(0x9E));
}

#[test]
fn test_pic_priority_and_mask() {
    let mut pic = Pic::new(0x08);
    pic.write_u8(0x21, 0x00);
    pic.set_irq_level(3, true);
    pic.set_irq_level(1, true);
    assert_eq!(pic.inta(), 0x09);
    assert_eq!(pic.inta(), 0x0B);
    // Masked IRQ is never delivered: spurious vector
    pic.write_u8(0x21, 0x10);
    pic.set_irq_level(4, true);
    assert_eq!(pic.inta(), 0x0F);
}

#[test]
fn test_floppy_save_checks() {
    let mut disk = FloppyDisk::new(DiskGeometry::new(40, 1, 8, 512));
    assert_eq!(disk.check_save(), Err(SaveError::NoPath));
    assert_eq!(disk.path(), None);
    let mut loaded = FloppyDisk::from_image(vec![0u8; 163_840], Some(PathBuf::from("/tmp/a.img"))).unwrap();
    assert_eq!(loaded.path(), Some(Path::new("/tmp/a.img")));
    assert_eq!(loaded.check_save(), Err(SaveError::WriteProtected));
    loaded.set_write_protected(false);
    assert_eq!(loaded.check_save(), Ok(()));
    loaded.write_sector(0, 0, 1, &[7]).unwrap();
    assert!(loaded.is_dirty());
    loaded.mark_saved();
    assert!(!loaded.is_dirty());
    disk.set_write_protected(true);
    assert_eq!(disk.check_save(), Err(SaveError::NoPath));
}
