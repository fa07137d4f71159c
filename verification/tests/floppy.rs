//! Tests of the floppy module

use ezpc::components::floppy::{DiskGeometry, FloppyDisk};

#[test]
fn test_geometry_sizes() {
    // 360KB
    let g = DiskGeometry::new(40, 2, 9, 512);
    assert_eq!(g.total_size(), 368_640);

    // 720KB
    let g = DiskGeometry::new(80, 2, 9, 512);
    assert_eq!(g.total_size(), 737_280);

    // 1.44MB
    let g = DiskGeometry::new(80, 2, 18, 512);
    assert_eq!(g.total_size(), 1_474_560);
}

#[test]
fn test_geometry_detection() {
    assert_eq!(
        DiskGeometry::from_size(368_640),
        Some(DiskGeometry::new(40, 2, 9, 512))
    );
    assert_eq!(
        DiskGeometry::from_size(737_280),
        Some(DiskGeometry::new(80, 2, 9, 512))
    );
    assert_eq!(
        DiskGeometry::from_size(1_474_560),
        Some(DiskGeometry::new(80, 2, 18, 512))
    );
    assert_eq!(DiskGeometry::from_size(12345), None);
}

#[test]
fn test_chs_to_offset() {
    let g = DiskGeometry::new(40, 2, 9, 512);

    // First sector (C=0, H=0, S=1)
    assert_eq!(g.chs_to_offset(0, 0, 1), Some(0));

    // Second sector (C=0, H=0, S=2)
    assert_eq!(g.chs_to_offset(0, 0, 2), Some(512));

    // First sector of second side (C=0, H=1, S=1)
    assert_eq!(g.chs_to_offset(0, 1, 1), Some(9 * 512));

    // First sector of second track (C=1, H=0, S=1)
    assert_eq!(g.chs_to_offset(1, 0, 1), Some(2 * 9 * 512));

    // Invalid sector 0
    assert_eq!(g.chs_to_offset(0, 0, 0), None);

    // Invalid sector > sectors_per_track
    assert_eq!(g.chs_to_offset(0, 0, 10), None);

    // Invalid head
    assert_eq!(g.chs_to_offset(0, 2, 1), None);

    // Invalid cylinder
    assert_eq!(g.chs_to_offset(40, 0, 1), None);
}

#[test]
fn test_floppy_new() {
    let g = DiskGeometry::new(40, 2, 9, 512);
    let disk = FloppyDisk::new(g);

    assert_eq!(disk.geometry(), g);
    assert_eq!(disk.data.len(), 368_640);
    assert!(!disk.is_write_protected());
    assert!(!disk.is_dirty());
}

#[test]
fn test_read_write_sector() {
    let g = DiskGeometry::new(40, 2, 9, 512);
    let mut disk = FloppyDisk::new(g);

    // Write some data
    let test_data = vec![0xAA; 512];
    disk.write_sector(0, 0, 1, &test_data).unwrap();

    assert!(disk.is_dirty());

    // Read it back
    let read_data = disk.read_sector(0, 0, 1).unwrap();
    assert_eq!(read_data, &test_data[..]);

    // Verify other sectors are still zeros
    let other_sector = disk.read_sector(0, 0, 2).unwrap();
    assert!(other_sector.iter().all(|&b| b == 0));
}

#[test]
fn test_write_protected() {
    let g = DiskGeometry::new(40, 2, 9, 512);
    let mut disk = FloppyDisk::new(g);
    disk.set_write_protected(true);

    let test_data = vec![0xAA; 512];
    let result = disk.write_sector(0, 0, 1, &test_data);

    assert!(result.is_err());
    assert!(!disk.is_dirty());
}

#[test]
fn test_format_track() {
    let g = DiskGeometry::new(40, 2, 9, 512);
    let mut disk = FloppyDisk::new(g);

    disk.format_track(0, 0, 0xF6).unwrap();

    // All 9 sectors on track 0, head 0 should be filled
    for sector in 1..=9 {
        let data = disk.read_sector(0, 0, sector).unwrap();
        assert!(data.iter().all(|&b| b == 0xF6));
    }

    // Other tracks should still be zeros
    let other_track = disk.read_sector(1, 0, 1).unwrap();
    assert!(other_track.iter().all(|&b| b == 0));
}

#[test]
fn test_invalid_chs() {
    let g = DiskGeometry::new(40, 2, 9, 512);
    let disk = FloppyDisk::new(g);

    // Invalid reads return None
    assert!(disk.read_sector(0, 0, 0).is_none()); // Sector 0 invalid
    assert!(disk.read_sector(0, 0, 10).is_none()); // Sector > SPT
    assert!(disk.read_sector(40, 0, 1).is_none()); // Cylinder out of range
}
