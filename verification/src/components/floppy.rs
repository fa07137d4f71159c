//! Floppy disk image handling
//!
//! Supports raw sector images (.img) with auto-detected geometry.
//! Common formats: 160KB, 180KB, 320KB, 360KB, 720KB, 1.2MB, 1.44MB

use std::path::{Path, PathBuf};
use vstd::prelude::*;

verus! {

/// Standard bytes per sector for IBM PC floppy disks
pub const BYTES_PER_SECTOR: u16 = 512;

#[verifier::external_type_specification]
#[verifier::external_body]
pub struct ExPathBuf(PathBuf);

#[verifier::external_type_specification]
#[verifier::external_body]
pub struct ExPath(Path);

/// Borrows a path buffer as a path (`PathBuf::as_path`); the contract
/// claims nothing about the path's text.
#[verifier::external_body]
fn path_buf_as_path(p: &PathBuf) -> &Path {
    p.as_path()
}

/// Floppy disk geometry (CHS layout)
#[derive(Debug, Clone, Copy, PartialEq, Eq, Structural)]
pub struct DiskGeometry {
    /// Number of cylinders (tracks per side)
    pub cylinders: u8,
    /// Number of heads (sides)
    pub heads: u8,
    /// Sectors per track
    pub sectors_per_track: u8,
    /// Bytes per sector (typically 512)
    pub bytes_per_sector: u16,
}

/// Errors of sector writes and track formatting
#[derive(Debug, Clone, Copy, PartialEq, Eq, Structural)]
pub enum DiskError {
    /// The disk is write-protected
    WriteProtected,
    /// The cylinder/head/sector address lies outside the geometry
    InvalidAddress,
    /// The sector lies beyond the end of the image data
    BeyondImage,
}

/// Why an image cannot be written back to its file
#[derive(Debug, Clone, Copy, PartialEq, Eq, Structural)]
pub enum SaveError {
    /// The image was not loaded from a file
    NoPath,
    /// The disk is write-protected
    WriteProtected,
}

impl DiskGeometry {
    /// Total size in bytes, as a mathematical integer.
    pub open spec fn spec_total_size(self) -> int {
        self.cylinders as int * self.heads as int * self.sectors_per_track as int
            * self.bytes_per_sector as int
    }

    /// Whether the CHS address names a sector of this geometry.
    pub open spec fn valid_chs(self, cylinder: u8, head: u8, sector: u8) -> bool {
        sector != 0 && sector <= self.sectors_per_track && head < self.heads && cylinder
            < self.cylinders
    }

    /// Linear sector number of a CHS address.
    pub open spec fn lba(self, cylinder: u8, head: u8, sector: u8) -> int {
        (cylinder as int * self.heads as int + head as int) * self.sectors_per_track as int + (
        sector as int - 1)
    }

    /// Byte offset of a CHS address.
    pub open spec fn spec_offset(self, cylinder: u8, head: u8, sector: u8) -> int {
        self.lba(cylinder, head, sector) * self.bytes_per_sector as int
    }

    /// The geometry of a standard image of `size` bytes, if any.
    pub open spec fn spec_from_size(size: usize) -> Option<DiskGeometry> {
        if size == 163_840 {
            Some(DiskGeometry::spec_new(40, 1, 8, 512))
        } else if size == 184_320 {
            Some(DiskGeometry::spec_new(40, 1, 9, 512))
        } else if size == 327_680 {
            Some(DiskGeometry::spec_new(40, 2, 8, 512))
        } else if size == 368_640 {
            Some(DiskGeometry::spec_new(40, 2, 9, 512))
        } else if size == 737_280 {
            Some(DiskGeometry::spec_new(80, 2, 9, 512))
        } else if size == 1_228_800 {
            Some(DiskGeometry::spec_new(80, 2, 15, 512))
        } else if size == 1_474_560 {
            Some(DiskGeometry::spec_new(80, 2, 18, 512))
        } else if size == 2_949_120 {
            Some(DiskGeometry::spec_new(80, 2, 36, 512))
        } else {
            None
        }
    }

    /// A geometry value.
    pub open spec fn spec_new(cylinders: u8, heads: u8, sectors_per_track: u8, bytes_per_sector: u16) -> DiskGeometry {
        DiskGeometry { cylinders, heads, sectors_per_track, bytes_per_sector }
    }

    /// Create a new geometry
    pub fn new(cylinders: u8, heads: u8, sectors_per_track: u8, bytes_per_sector: u16) -> (r: Self)
        ensures
            r == DiskGeometry::spec_new(cylinders, heads, sectors_per_track, bytes_per_sector),
    {
        Self { cylinders, heads, sectors_per_track, bytes_per_sector }
    }

    /// Total size in bytes
    pub fn total_size(&self) -> (r: usize)
        requires
            self.spec_total_size() <= usize::MAX,
        ensures
            r == self.spec_total_size(),
    {
        let c = self.cylinders as usize;
        let h = self.heads as usize;
        let s = self.sectors_per_track as usize;
        let b = self.bytes_per_sector as usize;
        assert(c * h <= 65025 && c * h * s <= 16_581_375) by (nonlinear_arith)
            requires
                c < 256,
                h < 256,
                s < 256,
        ;
        c * h * s * b
    }

    /// Detect geometry from file size
    pub fn from_size(size: usize) -> (r: Option<Self>)
        ensures
            r == DiskGeometry::spec_from_size(size),
    {
        if size == 163_840 {
            Some(Self::new(40, 1, 8, 512))  // 160KB
        } else if size == 184_320 {
            Some(Self::new(40, 1, 9, 512))  // 180KB
        } else if size == 327_680 {
            Some(Self::new(40, 2, 8, 512))  // 320KB
        } else if size == 368_640 {
            Some(Self::new(40, 2, 9, 512))  // 360KB
        } else if size == 737_280 {
            Some(Self::new(80, 2, 9, 512))  // 720KB
        } else if size == 1_228_800 {
            Some(Self::new(80, 2, 15, 512))  // 1.2MB
        } else if size == 1_474_560 {
            Some(Self::new(80, 2, 18, 512))  // 1.44MB
        } else if size == 2_949_120 {
            Some(Self::new(80, 2, 36, 512))  // 2.88MB
        } else {
            None
        }
    }

    /// Convert CHS address to linear byte offset (sector numbers are 1-based)
    pub fn chs_to_offset(&self, cylinder: u8, head: u8, sector: u8) -> (r: Option<usize>)
        requires
            self.spec_total_size() <= usize::MAX,
        ensures
            r.is_some() == self.valid_chs(cylinder, head, sector),
            r matches Some(off) ==> off == self.spec_offset(cylinder, head, sector) && off
                + self.bytes_per_sector <= self.spec_total_size(),
    {
        if sector == 0 || sector > self.sectors_per_track {
            return None;
        }
        if head >= self.heads {
            return None;
        }
        if cylinder >= self.cylinders {
            return None;
        }
        proof {
            lemma_offset_bounds(*self, cylinder, head, sector);
        }
        let sector_index = (sector - 1) as usize;
        let head_index = head as usize;
        let cylinder_index = cylinder as usize;
        let lba = (cylinder_index * (self.heads as usize) + head_index) * (
        self.sectors_per_track as usize) + sector_index;
        Some(lba * (self.bytes_per_sector as usize))
    }
}

/// A valid CHS address lies inside the image: its sector ends at or
/// before the total size.
proof fn lemma_offset_bounds(g: DiskGeometry, c: u8, h: u8, s: u8)
    requires
        g.valid_chs(c, h, s),
    ensures
        0 <= g.lba(c, h, s),
        g.lba(c, h, s) < g.cylinders as int * g.heads as int * g.sectors_per_track as int,
        0 <= g.spec_offset(c, h, s),
        g.spec_offset(c, h, s) + g.bytes_per_sector as int <= g.spec_total_size(),
        g.lba(c, h, s) < 16_777_216,
        0 <= c as int * g.heads as int + h as int,
        (c as int * g.heads as int + h as int) < 65536,
        (c as int * g.heads as int + h as int) < g.cylinders as int * g.heads as int,
{
    let hh = g.heads as int;
    let ss = g.sectors_per_track as int;
    let bb = g.bytes_per_sector as int;
    let cc = g.cylinders as int;
    let track = c as int * hh + h as int;
    assert(track < cc * hh) by (nonlinear_arith)
        requires
            track == c as int * hh + h as int,
            c < cc,
            h < hh,
            0 <= c,
    ;
    assert(0 <= track) by (nonlinear_arith)
        requires
            track == c as int * hh + h as int,
            0 <= c,
            0 <= h,
            0 <= hh,
    ;
    assert(cc * hh <= 65025) by (nonlinear_arith)
        requires
            0 <= cc < 256,
            0 <= hh < 256,
    ;
    let l = track * ss + (s as int - 1);
    assert((track + 1) * ss <= cc * hh * ss) by (nonlinear_arith)
        requires
            track + 1 <= cc * hh,
            0 <= ss,
    ;
    assert(l < cc * hh * ss) by (nonlinear_arith)
        requires
            l == track * ss + (s as int - 1),
            (track + 1) * ss <= cc * hh * ss,
            1 <= s <= ss,
    ;
    assert(l < 16_777_216) by (nonlinear_arith)
        requires
            l < cc * hh * ss,
            cc * hh <= 65025,
            0 <= ss < 256,
            0 <= cc * hh,
    ;
    assert(0 <= l) by (nonlinear_arith)
        requires
            l == track * ss + (s as int - 1),
            0 <= track,
            1 <= s,
            0 <= ss,
    ;
    assert(0 <= l * bb && l * bb + bb <= cc * hh * ss * bb) by (nonlinear_arith)
        requires
            0 <= l,
            l < cc * hh * ss,
            0 <= bb,
    ;
}

/// Every standard image size is the total size of the geometry detected from it.
proof fn lemma_standard_sizes(size: usize)
    ensures
        DiskGeometry::spec_from_size(size) matches Some(g) ==> g.spec_total_size() == size,
{
    assert(40int * 1 * 8 * 512 == 163_840);
    assert(40int * 1 * 9 * 512 == 184_320);
    assert(40int * 2 * 8 * 512 == 327_680);
    assert(40int * 2 * 9 * 512 == 368_640);
    assert(80int * 2 * 9 * 512 == 737_280);
    assert(80int * 2 * 15 * 512 == 1_228_800);
    assert(80int * 2 * 18 * 512 == 1_474_560);
    assert(80int * 2 * 36 * 512 == 2_949_120);
}

/// A floppy disk image
#[derive(Debug)]
pub struct FloppyDisk {
    /// Raw sector data
    pub data: Vec<u8>,
    /// Disk geometry
    pub geometry: DiskGeometry,
    /// Write protection flag
    pub write_protected: bool,
    /// Modified since load
    pub dirty: bool,
    /// Source file path (for saving)
    pub path: Option<PathBuf>,
}

impl FloppyDisk {
    /// The bytes that a write of `data` leaves in a sector of `size`
    /// bytes: `data` cut or zero-padded to that size.
    pub open spec fn sector_image(data: Seq<u8>, size: int) -> Seq<u8> {
        Seq::new(size as nat, |i: int| if i < data.len() { data[i] } else { 0u8 })
    }

    /// `new` is `old` with `data` written to the sector at the CHS address
    /// (cut or zero-padded to the sector size) and marked dirty.
    pub open spec fn sector_written(
        old: FloppyDisk,
        new: FloppyDisk,
        cylinder: u8,
        head: u8,
        sector: u8,
        data: Seq<u8>,
    ) -> bool {
        let off = old.geometry.spec_offset(cylinder, head, sector);
        let bps = old.geometry.bytes_per_sector as int;
        &&& new.dirty
        &&& new.data@.len() == old.data@.len()
        &&& forall|i: int|
            0 <= i < new.data@.len() ==> #[trigger] new.data@[i] == (if off <= i < off + bps {
                if i - off < data.len() {
                    data[i - off]
                } else {
                    0u8
                }
            } else {
                old.data@[i]
            })
    }

    /// `new` is `old` with the bytes of track `cylinder`/`head` (all its
    /// sectors, one after the other) set to `fill_byte` when the track
    /// exists, and marked dirty.
    pub open spec fn track_formatted(old: FloppyDisk, new: FloppyDisk, cylinder: u8, head: u8, fill_byte: u8) -> bool {
        let g = old.geometry;
        let start = (cylinder as int * g.heads as int + head as int) * g.sectors_per_track as int
            * g.bytes_per_sector as int;
        let len = g.sectors_per_track as int * g.bytes_per_sector as int;
        &&& new.dirty
        &&& new.data@.len() == old.data@.len()
        &&& forall|i: int|
            0 <= i < new.data@.len() ==> #[trigger] new.data@[i] == (if cylinder < g.cylinders && head
                < g.heads && start <= i < start + len {
                fill_byte
            } else {
                old.data@[i]
            })
    }

    /// The image holds exactly as many bytes as its geometry describes.
    pub open spec fn wf(self) -> bool {
        &&& self.data@.len() == self.geometry.spec_total_size()
        &&& self.geometry.spec_total_size() <= usize::MAX
    }

    /// Create a new empty floppy disk with the given geometry
    pub fn new(geometry: DiskGeometry) -> (r: Self)
        requires
            geometry.spec_total_size() <= usize::MAX,
        ensures
            r.wf(),
            r.geometry == geometry,
            forall|i: int| 0 <= i < r.data@.len() ==> r.data@[i] == 0,
            !r.write_protected,
            !r.dirty,
            r.path.is_none(),
    {
        let size = geometry.total_size();
        let mut data: Vec<u8> = Vec::new();
        let mut i: usize = 0;
        while i < size
            invariant
                0 <= i <= size,
                data@.len() == i,
                forall|j: int| 0 <= j < i ==> data@[j] == 0,
            decreases size - i,
        {
            data.push(0);
            i = i + 1;
        }
        Self { data, geometry, write_protected: false, dirty: false, path: None }
    }

    /// Build a disk from the bytes of an image file; the geometry is detected
    /// from the size. The disk is read-only. Returns None for a size that no
    /// standard geometry has.
    pub fn from_image(data: Vec<u8>, path: Option<PathBuf>) -> (r: Option<Self>)
        ensures
            r.is_some() == DiskGeometry::spec_from_size(data@.len() as usize).is_some(),
            r matches Some(d) ==> {
                &&& d.wf()
                &&& d.data@ == data@
                &&& Some(d.geometry) == DiskGeometry::spec_from_size(data@.len() as usize)
                &&& d.write_protected
                &&& !d.dirty
                &&& d.path == path
            },
    {
        proof {
            lemma_standard_sizes(data.len());
        }
        match DiskGeometry::from_size(data.len()) {
            Some(geometry) => Some(
                Self { data, geometry, write_protected: true, dirty: false, path },
            ),
            None => None,
        }
    }

    /// Get the disk geometry
    pub fn geometry(&self) -> (r: DiskGeometry)
        ensures
            r == self.geometry,
    {
        self.geometry
    }

    /// Check if the disk is write-protected
    pub fn is_write_protected(&self) -> (r: bool)
        ensures
            r == self.write_protected,
    {
        self.write_protected
    }

    /// Set write protection status
    pub fn set_write_protected(&mut self, protected: bool)
        ensures
            final(self).write_protected == protected,
            final(self).data == old(self).data,
            final(self).geometry == old(self).geometry,
            final(self).dirty == old(self).dirty,
            final(self).path == old(self).path,
    {
        self.write_protected = protected;
    }

    /// Check if the disk has been modified
    pub fn is_dirty(&self) -> (r: bool)
        ensures
            r == self.dirty,
    {
        self.dirty
    }

    /// Read a sector from the disk
    ///
    /// Returns None if the CHS address is invalid.
    pub fn read_sector(&self, cylinder: u8, head: u8, sector: u8) -> (r: Option<&[u8]>)
        requires
            self.wf(),
        ensures
            r.is_some() == self.geometry.valid_chs(cylinder, head, sector),
            r matches Some(s) ==> s@ == self.data@.subrange(
                self.geometry.spec_offset(cylinder, head, sector),
                self.geometry.spec_offset(cylinder, head, sector)
                    + self.geometry.bytes_per_sector as int,
            ),
    {
        match self.geometry.chs_to_offset(cylinder, head, sector) {
            None => None,
            Some(offset) => {
                let end = offset + (self.geometry.bytes_per_sector as usize);
                if end <= self.data.len() {
                    Some(vstd::slice::slice_subrange(self.data.as_slice(), offset, end))
                } else {
                    None
                }
            },
        }
    }

    /// Write a sector to the disk
    ///
    /// The data is truncated or zero-padded to the sector size. Fails if the
    /// disk is write-protected or the CHS address is invalid.
    pub fn write_sector(&mut self, cylinder: u8, head: u8, sector: u8, data: &[u8]) -> (r: Result<(), DiskError>)
        requires
            old(self).wf(),
        ensures
            final(self).wf(),
            final(self).geometry == old(self).geometry,
            final(self).write_protected == old(self).write_protected,
            final(self).path == old(self).path,
            old(self).write_protected ==> r == Err::<(), DiskError>(DiskError::WriteProtected),
            !old(self).write_protected && !old(self).geometry.valid_chs(cylinder, head, sector)
                ==> r == Err::<(), DiskError>(DiskError::InvalidAddress),
            r.is_err() ==> final(self).data@ == old(self).data@ && final(self).dirty == old(self).dirty,
            r.is_ok() == (!old(self).write_protected && old(self).geometry.valid_chs(cylinder, head, sector)),
            r.is_ok() ==> Self::sector_written(*old(self), *final(self), cylinder, head, sector, data@),
    {
        if self.write_protected {
            return Err(DiskError::WriteProtected);
        }
        let offset = match self.geometry.chs_to_offset(cylinder, head, sector) {
            Some(o) => o,
            None => {
                return Err(DiskError::InvalidAddress);
            },
        };
        let sector_size = self.geometry.bytes_per_sector as usize;
        let end = offset + sector_size;
        if end > self.data.len() {
            return Err(DiskError::BeyondImage);
        }
        let copy_len = if data.len() < sector_size {
            data.len()
        } else {
            sector_size
        };
        let mut i: usize = 0;
        while i < sector_size
            invariant
                0 <= i <= sector_size,
                end == offset + sector_size,
                end <= self.data@.len(),
                copy_len <= data@.len(),
                copy_len <= sector_size,
                copy_len == data@.len() || copy_len == sector_size,
                self.data@.len() == old(self).data@.len(),
                self.geometry == old(self).geometry,
                self.write_protected == old(self).write_protected,
                self.path == old(self).path,
                self.dirty == old(self).dirty,
                forall|j: int|
                    0 <= j < self.data@.len() ==> #[trigger] self.data@[j] == (if offset <= j
                        < offset + i {
                        if j - offset < data@.len() {
                            data@[j - offset]
                        } else {
                            0u8
                        }
                    } else {
                        old(self).data@[j]
                    }),
            decreases sector_size - i,
        {
            let b = if i < copy_len {
                data[i]
            } else {
                0u8
            };
            self.data.set(offset + i, b);
            i = i + 1;
        }
        self.dirty = true;
        Ok(())
    }

    /// Format a track (fill all sectors of a cylinder/head with a byte)
    pub fn format_track(&mut self, cylinder: u8, head: u8, fill_byte: u8) -> (r: Result<(), DiskError>)
        requires
            old(self).wf(),
        ensures
            final(self).wf(),
            final(self).geometry == old(self).geometry,
            final(self).write_protected == old(self).write_protected,
            final(self).path == old(self).path,
            old(self).write_protected ==> r == Err::<(), DiskError>(DiskError::WriteProtected)
                && *final(self) == *old(self),
            !old(self).write_protected ==> r == Ok::<(), DiskError>(()) && Self::track_formatted(
                *old(self),
                *final(self),
                cylinder,
                head,
                fill_byte,
            ),
    {
        if self.write_protected {
            return Err(DiskError::WriteProtected);
        }
        let ghost g = self.geometry;
        let ghost start = (cylinder as int * g.heads as int + head as int) * g.sectors_per_track as int
            * g.bytes_per_sector as int;
        let sector_size = self.geometry.bytes_per_sector as usize;
        let spt = self.geometry.sectors_per_track;
        let mut next: u16 = 1;
        while next <= spt as u16
            invariant
                1 <= next,
                next as int <= spt as int + 1,
                start == (cylinder as int * g.heads as int + head as int) * g.sectors_per_track as int
                    * g.bytes_per_sector as int,
                spt == g.sectors_per_track,
                sector_size == g.bytes_per_sector,
                self.geometry == g,
                g == old(self).geometry,
                old(self).wf(),
                self.data@.len() == old(self).data@.len(),
                self.write_protected == old(self).write_protected,
                self.path == old(self).path,
                self.dirty == old(self).dirty,
                forall|j: int|
                    0 <= j < self.data@.len() ==> #[trigger] self.data@[j] == (if cylinder
                        < g.cylinders && head < g.heads && start <= j < start + (next as int - 1)
                        * g.bytes_per_sector as int {
                        fill_byte
                    } else {
                        old(self).data@[j]
                    }),
            decreases spt as int + 1 - next as int,
        {
            let sector = next as u8;
            if let Some(offset) = self.geometry.chs_to_offset(cylinder, head, sector) {
                proof {
                    assert(offset == start + (sector as int - 1) * g.bytes_per_sector as int) by (nonlinear_arith)
                        requires
                            offset == ((cylinder as int * g.heads as int + head as int) * g.sectors_per_track as int + (sector as int - 1)) * g.bytes_per_sector as int,
                            start == (cylinder as int * g.heads as int + head as int) * g.sectors_per_track as int
                                * g.bytes_per_sector as int,
                    ;
                    assert(start <= offset) by (nonlinear_arith)
                        requires
                            offset == start + (sector as int - 1) * g.bytes_per_sector as int,
                            1 <= sector,
                    ;
                }
                let end = offset + sector_size;
                if end <= self.data.len() {
                    let mut i: usize = 0;
                    while i < sector_size
                        invariant
                            0 <= i <= sector_size,
                            end == offset + sector_size,
                            end <= self.data@.len(),
                            offset == start + (sector as int - 1) * g.bytes_per_sector as int,
                            start <= offset,
                            sector_size == g.bytes_per_sector,
                            cylinder < g.cylinders && head < g.heads,
                            self.geometry == g,
                            self.data@.len() == old(self).data@.len(),
                            self.write_protected == old(self).write_protected,
                            self.path == old(self).path,
                            self.dirty == old(self).dirty,
                            forall|j: int|
                                0 <= j < self.data@.len() ==> #[trigger] self.data@[j] == (if start
                                    <= j < offset + i {
                                    fill_byte
                                } else {
                                    old(self).data@[j]
                                }),
                        decreases sector_size - i,
                    {
                        self.data.set(offset + i, fill_byte);
                        i = i + 1;
                    }
                    assert(offset + sector_size == start + (sector as int) * g.bytes_per_sector as int) by (nonlinear_arith)
                        requires
                            offset == start + (sector as int - 1) * g.bytes_per_sector as int,
                            sector_size == g.bytes_per_sector,
                    ;
                }
            } else {
                assert(!(cylinder < g.cylinders && head < g.heads));
            }
            next = next + 1;
        }
        self.dirty = true;
        Ok(())
    }

    /// Whether the image may be written back to its file: it needs the path
    /// it was loaded from and must not be write-protected.
    pub fn check_save(&self) -> (r: Result<(), SaveError>)
        ensures
            r == (if self.path.is_none() {
                Err(SaveError::NoPath)
            } else if self.write_protected {
                Err(SaveError::WriteProtected)
            } else {
                Ok(())
            }),
    {
        if self.path.is_none() {
            return Err(SaveError::NoPath);
        }
        if self.write_protected {
            return Err(SaveError::WriteProtected);
        }
        Ok(())
    }

    /// Record that the image has been written back: no longer dirty
    pub fn mark_saved(&mut self)
        ensures
            final(self).dirty == false,
            final(self).data@ == old(self).data@,
            final(self).geometry == old(self).geometry,
            final(self).write_protected == old(self).write_protected,
            final(self).path == old(self).path,
    {
        self.dirty = false;
    }

    /// Get the file path (if loaded from file)
    pub fn path(&self) -> (r: Option<&Path>)
        ensures
            r.is_some() == self.path.is_some(),
    {
        match &self.path {
            Some(p) => Some(path_buf_as_path(p)),
            None => None,
        }
    }
}

/// A sector that was written reads back as the written bytes (cut or
/// zero-padded to the sector size); every other sector is unchanged.
pub proof fn law_sector_read_after_write(
    old: FloppyDisk,
    new: FloppyDisk,
    cylinder: u8,
    head: u8,
    sector: u8,
    data: Seq<u8>,
    other_cylinder: u8,
    other_head: u8,
    other_sector: u8,
)
    requires
        old.wf(),
        old.geometry.valid_chs(cylinder, head, sector),
        FloppyDisk::sector_written(old, new, cylinder, head, sector, data),
    ensures
        ({
            let off = old.geometry.spec_offset(cylinder, head, sector);
            new.data@.subrange(off, off + old.geometry.bytes_per_sector as int)
                == FloppyDisk::sector_image(data, old.geometry.bytes_per_sector as int)
        }),
        old.geometry.valid_chs(other_cylinder, other_head, other_sector) && (other_cylinder != cylinder
            || other_head != head || other_sector != sector) ==> ({
            let o = old.geometry.spec_offset(other_cylinder, other_head, other_sector);
            let bps = old.geometry.bytes_per_sector as int;
            new.data@.subrange(o, o + bps) == old.data@.subrange(o, o + bps)
        }),
{
    let g = old.geometry;
    let bps = g.bytes_per_sector as int;
    let off = g.spec_offset(cylinder, head, sector);
    lemma_offset_bounds(g, cylinder, head, sector);
    assert(new.data@.subrange(off, off + bps) =~= FloppyDisk::sector_image(data, bps));
    if g.valid_chs(other_cylinder, other_head, other_sector) && (other_cylinder != cylinder || other_head
        != head || other_sector != sector) {
        lemma_lba_distinct(g, cylinder, head, sector, other_cylinder, other_head, other_sector);
        lemma_offset_bounds(g, other_cylinder, other_head, other_sector);
        let o = g.spec_offset(other_cylinder, other_head, other_sector);
        let la = g.lba(other_cylinder, other_head, other_sector);
        let lb = g.lba(cylinder, head, sector);
        assert(o + bps <= off || off + bps <= o) by (nonlinear_arith)
            requires
                o == la * bps,
                off == lb * bps,
                la != lb,
                bps >= 0,
        ;
        assert(new.data@.subrange(o, o + bps) =~= old.data@.subrange(o, o + bps));
    }
}

/// A number written in a mixed radix has one digit pair: `a * m + r` with
/// `0 <= r < m` fixes `a` and `r`.
proof fn lemma_mixed_radix(a1: int, r1: int, a2: int, r2: int, m: int)
    requires
        0 <= r1 < m,
        0 <= r2 < m,
        a1 * m + r1 == a2 * m + r2,
    ensures
        a1 == a2,
        r1 == r2,
{
    if a1 < a2 {
        assert((a2 - a1) * m >= m) by (nonlinear_arith)
            requires
                a2 - a1 >= 1,
                m > 0,
        ;
        assert(a2 * m - a1 * m == (a2 - a1) * m) by (nonlinear_arith);
    } else if a2 < a1 {
        assert((a1 - a2) * m >= m) by (nonlinear_arith)
            requires
                a1 - a2 >= 1,
                m > 0,
        ;
        assert(a1 * m - a2 * m == (a1 - a2) * m) by (nonlinear_arith);
    }
}

/// Two different valid CHS addresses have different linear sector numbers.
proof fn lemma_lba_distinct(g: DiskGeometry, c1: u8, h1: u8, s1: u8, c2: u8, h2: u8, s2: u8)
    requires
        g.valid_chs(c1, h1, s1),
        g.valid_chs(c2, h2, s2),
        c1 != c2 || h1 != h2 || s1 != s2,
    ensures
        g.lba(c1, h1, s1) != g.lba(c2, h2, s2),
{
    if g.lba(c1, h1, s1) == g.lba(c2, h2, s2) {
        let hh = g.heads as int;
        let ss = g.sectors_per_track as int;
        lemma_mixed_radix(c1 as int * hh + h1 as int, s1 as int - 1, c2 as int * hh + h2 as int, s2 as int - 1, ss);
        lemma_mixed_radix(c1 as int, h1 as int, c2 as int, h2 as int, hh);
    }
}

/// Formatting a track fills every sector of that track with the fill byte
/// and leaves every sector of every other track as it was.
pub proof fn law_format_fills_track(
    old: FloppyDisk,
    new: FloppyDisk,
    cylinder: u8,
    head: u8,
    fill_byte: u8,
    sector: u8,
    other_cylinder: u8,
    other_head: u8,
    other_sector: u8,
)
    requires
        old.wf(),
        FloppyDisk::track_formatted(old, new, cylinder, head, fill_byte),
    ensures
        old.geometry.valid_chs(cylinder, head, sector) ==> ({
            let off = old.geometry.spec_offset(cylinder, head, sector);
            let bps = old.geometry.bytes_per_sector as int;
            new.data@.subrange(off, off + bps) == Seq::new(bps as nat, |i: int| fill_byte)
        }),
        old.geometry.valid_chs(other_cylinder, other_head, other_sector) && (other_cylinder != cylinder
            || other_head != head) ==> ({
            let o = old.geometry.spec_offset(other_cylinder, other_head, other_sector);
            let bps = old.geometry.bytes_per_sector as int;
            new.data@.subrange(o, o + bps) == old.data@.subrange(o, o + bps)
        }),
{
    let g = old.geometry;
    let hh = g.heads as int;
    let ss = g.sectors_per_track as int;
    let bps = g.bytes_per_sector as int;
    let t = cylinder as int * hh + head as int;
    let start = t * ss * bps;
    let len = ss * bps;
    if g.valid_chs(cylinder, head, sector) {
        lemma_offset_bounds(g, cylinder, head, sector);
        let off = g.spec_offset(cylinder, head, sector);
        assert(start <= off && off + bps <= start + len) by (nonlinear_arith)
            requires
                off == (t * ss + (sector as int - 1)) * bps,
                start == t * ss * bps,
                len == ss * bps,
                1 <= sector as int <= ss,
                bps >= 0,
        ;
        assert(new.data@.subrange(off, off + bps) =~= Seq::new(bps as nat, |i: int| fill_byte));
    }
    if g.valid_chs(other_cylinder, other_head, other_sector) && (other_cylinder != cylinder
        || other_head != head) {
        lemma_offset_bounds(g, other_cylinder, other_head, other_sector);
        let t2 = other_cylinder as int * hh + other_head as int;
        let o = g.spec_offset(other_cylinder, other_head, other_sector);
        if cylinder < g.cylinders && head < g.heads {
            if t2 == t {
                lemma_mixed_radix(cylinder as int, head as int, other_cylinder as int, other_head as int, hh);
            }
            assert(o + bps <= start || start + len <= o) by (nonlinear_arith)
                requires
                    o == (t2 * ss + (other_sector as int - 1)) * bps,
                    start == t * ss * bps,
                    len == ss * bps,
                    1 <= other_sector as int <= ss,
                    bps >= 0,
                    t2 != t,
            ;
        }
        assert(new.data@.subrange(o, o + bps) =~= old.data@.subrange(o, o + bps));
    }
}

} // verus!
