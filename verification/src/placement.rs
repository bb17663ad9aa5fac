//! The placement map: where grass may grow, and its decoder.
//!
//! A map is a byte string that names its own layout in its first byte.
//!
//! * [`TAG_REGIONS`], then any number of records of five little-endian
//!   16-bit integers `id, x, z, w, h`: rectangles on the placement grid.
//! * [`TAG_BITMAP`], then the width and the height as little-endian 16-bit
//!   integers, then one pixel after the other, row by row. A pixel is two
//!   bytes, the density channel and the blade-height channel; in both, a
//!   dark pixel stands for much and a bright pixel for little.

use crate::units::ONE;
use vstd::prelude::*;

verus! {

/// First byte of a map made of rectangle records.
pub const TAG_REGIONS: u8 = 0x52;

/// First byte of a map made of pixels.
pub const TAG_BITMAP: u8 = 0x42;

/// Bytes of one rectangle record.
pub const REGION_BYTES: usize = 10;

/// Bytes before the first pixel of a bitmap: tag, width, height.
pub const BITMAP_HEADER_BYTES: usize = 5;

/// Bytes of one pixel.
pub const PIXEL_BYTES: usize = 2;

/// One entry of a placement map.
#[derive(Clone, Copy, Debug, PartialEq, Eq, Structural)]
pub enum PlacementRecord {
    /// A rectangle of grid cells; `id == 0` marks it as bare.
    Region { id: u16, x: u16, z: u16, w: u16, h: u16 },
    /// One grid cell with its share of cover and a hint for the blade's
    /// height, both between 0 and [`ONE`].
    Sample { x: u16, z: u16, coverage: u32, height_hint: u32 },
}

/// A sample grows grass when its coverage reaches this share.
pub const COVERAGE_THRESHOLD: u32 = 500;

impl PlacementRecord {
    /// Whether grass grows here: a region with a non-zero id, or a sample
    /// whose coverage reaches [`COVERAGE_THRESHOLD`].
    pub open spec fn active(self) -> bool {
        match self {
            PlacementRecord::Region { id, .. } => id != 0,
            PlacementRecord::Sample { coverage, .. } => coverage >= COVERAGE_THRESHOLD,
        }
    }

    /// Grid column of the record's first cell.
    pub open spec fn cell_x(self) -> int {
        match self {
            PlacementRecord::Region { x, .. } => x as int,
            PlacementRecord::Sample { x, .. } => x as int,
        }
    }

    /// Grid row of the record's first cell.
    pub open spec fn cell_z(self) -> int {
        match self {
            PlacementRecord::Region { z, .. } => z as int,
            PlacementRecord::Sample { z, .. } => z as int,
        }
    }

    /// Cells the record spans along x: a sample is one cell.
    pub open spec fn cells_wide(self) -> int {
        match self {
            PlacementRecord::Region { w, .. } => w as int,
            PlacementRecord::Sample { .. } => 1,
        }
    }

    /// Cells the record spans along z: a sample is one cell.
    pub open spec fn cells_deep(self) -> int {
        match self {
            PlacementRecord::Region { h, .. } => h as int,
            PlacementRecord::Sample { .. } => 1,
        }
    }

    /// Blades the record grows: none when it is not active, else a quarter
    /// of a region's area in cells, rounded down, or one for a sample.
    pub open spec fn blade_count(self) -> nat {
        if !self.active() {
            0
        } else {
            match self {
                PlacementRecord::Region { w, h, .. } => ((w * h) / 4) as nat,
                PlacementRecord::Sample { .. } => 1,
            }
        }
    }

    /// Whether grass grows here.
    pub fn is_active(&self) -> (yes: bool)
        ensures
            yes == self.active(),
    {
        match self {
            PlacementRecord::Region { id, .. } => *id != 0,
            PlacementRecord::Sample { coverage, .. } => *coverage >= COVERAGE_THRESHOLD,
        }
    }

    /// The number of blades this record grows.
    pub fn blades(&self) -> (count: u32)
        ensures
            count == self.blade_count(),
    {
        if !self.is_active() {
            return 0;
        }
        match self {
            PlacementRecord::Region { w, h, .. } => {
                let w: u32 = *w as u32;
                let h: u32 = *h as u32;
                assert(w * h <= 0xFFFF * 0xFFFF) by (nonlinear_arith)
                    requires
                        0 <= w <= 0xFFFF,
                        0 <= h <= 0xFFFF,
                ;
                (w * h) / 4
            },
            PlacementRecord::Sample { .. } => 1,
        }
    }
}

/// Why a placement map could not be decoded.
#[derive(Clone, Copy, Debug, PartialEq, Eq, Structural)]
pub enum DecodeError {
    /// The map is empty or its first byte names no known layout.
    UnsupportedFormat,
    /// The map ends inside a header, a record or the pixel rows.
    TruncatedRecord,
    /// The map goes on after the last pixel that its header announces.
    TrailingData,
}

/// The little-endian 16-bit integer that starts at `at`.
pub open spec fn u16_at(bytes: Seq<u8>, at: int) -> u16 {
    (bytes[at] + 256 * bytes[at + 1]) as u16
}

/// The `i`-th rectangle record of a region map.
pub open spec fn region_at(bytes: Seq<u8>, i: int) -> PlacementRecord {
    let at = 1 + REGION_BYTES * i;
    PlacementRecord::Region {
        id: u16_at(bytes, at),
        x: u16_at(bytes, at + 2),
        z: u16_at(bytes, at + 4),
        w: u16_at(bytes, at + 6),
        h: u16_at(bytes, at + 8),
    }
}

/// What an 8-bit intensity stands for: black is [`ONE`], white is 0.
pub open spec fn inverse_intensity(intensity: u8) -> u32 {
    (((255 - intensity) * ONE) / 255) as u32
}

/// The `i`-th pixel of a bitmap that is `width` pixels wide.
pub open spec fn sample_at(bytes: Seq<u8>, width: int, i: int) -> PlacementRecord {
    let at = BITMAP_HEADER_BYTES + PIXEL_BYTES * i;
    PlacementRecord::Sample {
        x: (i % width) as u16,
        z: (i / width) as u16,
        coverage: inverse_intensity(bytes[at]),
        height_hint: inverse_intensity(bytes[at + 1]),
    }
}

/// The records that a byte string holds, or the reason it holds none.
pub open spec fn decoded(bytes: Seq<u8>) -> Result<Seq<PlacementRecord>, DecodeError> {
    if bytes.len() == 0 {
        Err(DecodeError::UnsupportedFormat)
    } else if bytes[0] == TAG_REGIONS {
        if (bytes.len() - 1) % (REGION_BYTES as int) != 0 {
            Err(DecodeError::TruncatedRecord)
        } else {
            Ok(
                Seq::new(
                    ((bytes.len() - 1) / (REGION_BYTES as int)) as nat,
                    |i: int| region_at(bytes, i),
                ),
            )
        }
    } else if bytes[0] == TAG_BITMAP {
        if bytes.len() < BITMAP_HEADER_BYTES {
            Err(DecodeError::TruncatedRecord)
        } else {
            let width = u16_at(bytes, 1) as int;
            let height = u16_at(bytes, 3) as int;
            let end = BITMAP_HEADER_BYTES + PIXEL_BYTES * (width * height);
            if bytes.len() < end {
                Err(DecodeError::TruncatedRecord)
            } else if bytes.len() > end {
                Err(DecodeError::TrailingData)
            } else {
                Ok(Seq::new((width * height) as nat, |i: int| sample_at(bytes, width, i)))
            }
        }
    } else {
        Err(DecodeError::UnsupportedFormat)
    }
}

fn read_u16(bytes: &[u8], at: usize) -> (value: u16)
    requires
        at + 1 < bytes@.len(),
    ensures
        value == u16_at(bytes@, at as int),
{
    let lo: u16 = bytes[at] as u16;
    let hi: u16 = bytes[at + 1] as u16;
    lo + 256 * hi
}

fn read_intensity(bytes: &[u8], at: usize) -> (value: u32)
    requires
        at < bytes@.len(),
    ensures
        value == inverse_intensity(bytes@[at as int]),
        value <= ONE,
{
    let dark: u32 = 255 - bytes[at] as u32;
    (dark * ONE) / 255
}

fn decode_regions(bytes: &[u8]) -> (result: Result<Vec<PlacementRecord>, DecodeError>)
    requires
        bytes@.len() > 0,
        bytes@[0] == TAG_REGIONS,
    ensures
        match result {
            Ok(records) => decoded(bytes@) == Ok::<Seq<PlacementRecord>, DecodeError>(records@),
            Err(e) => decoded(bytes@) == Err::<Seq<PlacementRecord>, DecodeError>(e),
        },
{
    let body: usize = bytes.len() - 1;
    if body % REGION_BYTES != 0 {
        return Err(DecodeError::TruncatedRecord);
    }
    let count: usize = body / REGION_BYTES;
    let mut records: Vec<PlacementRecord> = Vec::new();
    let mut i: usize = 0;
    while i < count
        invariant
            bytes@.len() == 1 + REGION_BYTES * count,
            bytes@.len() <= usize::MAX,
            i <= count,
            records@ == Seq::new(i as nat, |k: int| region_at(bytes@, k)),
        decreases count - i,
    {
        let at: usize = 1 + REGION_BYTES * i;
        let record = PlacementRecord::Region {
            id: read_u16(bytes, at),
            x: read_u16(bytes, at + 2),
            z: read_u16(bytes, at + 4),
            w: read_u16(bytes, at + 6),
            h: read_u16(bytes, at + 8),
        };
        records.push(record);
        i += 1;
    }
    Ok(records)
}

fn decode_bitmap(bytes: &[u8]) -> (result: Result<Vec<PlacementRecord>, DecodeError>)
    requires
        bytes@.len() > 0,
        bytes@[0] == TAG_BITMAP,
    ensures
        match result {
            Ok(records) => decoded(bytes@) == Ok::<Seq<PlacementRecord>, DecodeError>(records@),
            Err(e) => decoded(bytes@) == Err::<Seq<PlacementRecord>, DecodeError>(e),
        },
{
    if bytes.len() < BITMAP_HEADER_BYTES {
        return Err(DecodeError::TruncatedRecord);
    }
    let width: u64 = read_u16(bytes, 1) as u64;
    let height: u64 = read_u16(bytes, 3) as u64;
    assert(width * height <= 0xFFFF * 0xFFFF) by (nonlinear_arith)
        requires
            0 <= width <= 0xFFFF,
            0 <= height <= 0xFFFF,
    ;
    let pixels: u64 = width * height;
    let end: u64 = BITMAP_HEADER_BYTES as u64 + PIXEL_BYTES as u64 * pixels;
    let len: u64 = bytes.len() as u64;
    if len < end {
        return Err(DecodeError::TruncatedRecord);
    }
    if len > end {
        return Err(DecodeError::TrailingData);
    }
    let mut records: Vec<PlacementRecord> = Vec::new();
    let mut i: u64 = 0;
    while i < pixels
        invariant
            bytes@.len() == BITMAP_HEADER_BYTES + PIXEL_BYTES * pixels,
            bytes@.len() <= usize::MAX,
            pixels == width * height,
            width <= 0xFFFF,
            height <= 0xFFFF,
            i <= pixels,
            records@ == Seq::new(i as nat, |k: int| sample_at(bytes@, width as int, k)),
        decreases pixels - i,
    {
        assert(width > 0 && i / width < height) by (nonlinear_arith)
            requires
                0 <= i < width * height,
                0 <= width,
                0 <= height,
        ;
        let at: usize = BITMAP_HEADER_BYTES + PIXEL_BYTES * (i as usize);
        let record = PlacementRecord::Sample {
            x: (i % width) as u16,
            z: (i / width) as u16,
            coverage: read_intensity(bytes, at),
            height_hint: read_intensity(bytes, at + 1),
        };
        records.push(record);
        i += 1;
    }
    Ok(records)
}

/// Decodes a placement map into its records, in the order they are stored.
///
/// The whole map is read or none of it: a map that is malformed anywhere
/// yields the error and no record.
pub fn decode(bytes: &[u8]) -> (result: Result<Vec<PlacementRecord>, DecodeError>)
    ensures
        match result {
            Ok(records) => decoded(bytes@) == Ok::<Seq<PlacementRecord>, DecodeError>(records@),
            Err(e) => decoded(bytes@) == Err::<Seq<PlacementRecord>, DecodeError>(e),
        },
{
    if bytes.len() == 0 {
        return Err(DecodeError::UnsupportedFormat);
    }
    let tag: u8 = bytes[0];
    if tag == TAG_REGIONS {
        decode_regions(bytes)
    } else if tag == TAG_BITMAP {
        decode_bitmap(bytes)
    } else {
        Err(DecodeError::UnsupportedFormat)
    }
}

/// Decodes a placement map and appends its records to `destination`.
///
/// On an error `destination` is left exactly as it was.
pub fn decode_into(bytes: &[u8], destination: &mut Vec<PlacementRecord>) -> (result: Result<
    (),
    DecodeError,
>)
    ensures
        match decoded(bytes@) {
            Ok(records) => result is Ok && final(destination)@ == old(destination)@ + records,
            Err(e) => result == Err::<(), DecodeError>(e) && final(destination)@ == old(
                destination,
            )@,
        },
{
    match decode(bytes) {
        Ok(mut records) => {
            destination.append(&mut records);
            Ok(())
        },
        Err(e) => Err(e),
    }
}

} // verus!
