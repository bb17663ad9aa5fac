use birdylook::placement::{
    decode, decode_into, DecodeError, PlacementRecord, COVERAGE_THRESHOLD, TAG_BITMAP,
    TAG_REGIONS,
};

fn le(value: u16) -> [u8; 2] {
    [(value & 0xFF) as u8, (value >> 8) as u8]
}

fn region_map(records: &[[u16; 5]]) -> Vec<u8> {
    let mut bytes = vec![TAG_REGIONS];
    for record in records {
        for field in record {
            bytes.extend_from_slice(&le(*field));
        }
    }
    bytes
}

#[test]
fn decode_reads_regions_in_order() {
    let bytes = region_map(&[[1, 0, 0, 4, 4], [0, 7, 8, 9, 10], [0x1234, 0xFFFF, 256, 255, 1]]);
    let records = decode(&bytes).unwrap();
    assert_eq!(
        records,
        vec![
            PlacementRecord::Region { id: 1, x: 0, z: 0, w: 4, h: 4 },
            PlacementRecord::Region { id: 0, x: 7, z: 8, w: 9, h: 10 },
            PlacementRecord::Region { id: 0x1234, x: 0xFFFF, z: 256, w: 255, h: 1 },
        ]
    );
}

#[test]
fn decode_reads_little_endian_fields() {
    let bytes = vec![TAG_REGIONS, 0x34, 0x12, 1, 0, 0, 1, 0xFF, 0, 0xFF, 0xFF];
    assert_eq!(
        decode(&bytes),
        Ok(vec![PlacementRecord::Region { id: 0x1234, x: 1, z: 256, w: 255, h: 0xFFFF }])
    );
}

#[test]
fn decode_accepts_a_region_map_without_records() {
    assert_eq!(decode(&[TAG_REGIONS]), Ok(vec![]));
}

#[test]
fn decode_rejects_an_empty_map() {
    assert_eq!(decode(&[]), Err(DecodeError::UnsupportedFormat));
}

#[test]
fn decode_rejects_an_unknown_tag() {
    assert_eq!(decode(&[0x00, 1, 2, 3]), Err(DecodeError::UnsupportedFormat));
    assert_eq!(decode(b"{\"records\":[]}"), Err(DecodeError::UnsupportedFormat));
}

#[test]
fn decode_rejects_a_truncated_region() {
    let mut bytes = region_map(&[[1, 0, 0, 4, 4], [2, 1, 1, 2, 2]]);
    bytes.pop();
    assert_eq!(decode(&bytes), Err(DecodeError::TruncatedRecord));
    assert_eq!(decode(&[TAG_REGIONS, 1]), Err(DecodeError::TruncatedRecord));
}

#[test]
fn decode_reads_a_bitmap_row_by_row() {
    // 2 wide, 3 high; density then blade height for each pixel
    let bytes = vec![
        TAG_BITMAP, 2, 0, 3, 0, //
        0, 255, 255, 0, //
        51, 204, 128, 127, //
        254, 1, 1, 254,
    ];
    let records = decode(&bytes).unwrap();
    assert_eq!(
        records,
        vec![
            PlacementRecord::Sample { x: 0, z: 0, coverage: 1000, height_hint: 0 },
            PlacementRecord::Sample { x: 1, z: 0, coverage: 0, height_hint: 1000 },
            PlacementRecord::Sample { x: 0, z: 1, coverage: 800, height_hint: 200 },
            PlacementRecord::Sample { x: 1, z: 1, coverage: 498, height_hint: 501 },
            PlacementRecord::Sample { x: 0, z: 2, coverage: 3, height_hint: 996 },
            PlacementRecord::Sample { x: 1, z: 2, coverage: 996, height_hint: 3 },
        ]
    );
}

#[test]
fn decode_accepts_a_bitmap_without_pixels() {
    assert_eq!(decode(&[TAG_BITMAP, 0, 0, 9, 0]), Ok(vec![]));
    assert_eq!(decode(&[TAG_BITMAP, 9, 0, 0, 0]), Ok(vec![]));
}

#[test]
fn decode_rejects_a_truncated_bitmap() {
    assert_eq!(decode(&[TAG_BITMAP]), Err(DecodeError::TruncatedRecord));
    assert_eq!(decode(&[TAG_BITMAP, 1, 0, 1]), Err(DecodeError::TruncatedRecord));
    assert_eq!(decode(&[TAG_BITMAP, 1, 0, 1, 0, 7]), Err(DecodeError::TruncatedRecord));
    assert_eq!(decode(&[TAG_BITMAP, 2, 0, 2, 0, 1, 2, 3, 4, 5, 6]), Err(DecodeError::TruncatedRecord));
}

#[test]
fn decode_rejects_bytes_after_the_last_pixel() {
    assert_eq!(decode(&[TAG_BITMAP, 1, 0, 1, 0, 7, 7, 7]), Err(DecodeError::TrailingData));
    assert_eq!(decode(&[TAG_BITMAP, 0, 0, 0, 0, 1]), Err(DecodeError::TrailingData));
}

#[test]
fn decode_into_appends_after_what_is_there() {
    let mut destination = vec![PlacementRecord::Region { id: 9, x: 9, z: 9, w: 9, h: 9 }];
    let bytes = region_map(&[[1, 2, 3, 4, 5]]);
    assert_eq!(decode_into(&bytes, &mut destination), Ok(()));
    assert_eq!(
        destination,
        vec![
            PlacementRecord::Region { id: 9, x: 9, z: 9, w: 9, h: 9 },
            PlacementRecord::Region { id: 1, x: 2, z: 3, w: 4, h: 5 },
        ]
    );
}

#[test]
fn decode_into_leaves_the_destination_alone_on_failure() {
    let before = vec![PlacementRecord::Region { id: 9, x: 9, z: 9, w: 9, h: 9 }];
    let mut destination = before.clone();
    let mut bytes = region_map(&[[1, 2, 3, 4, 5], [6, 7, 8, 9, 10]]);
    bytes.truncate(bytes.len() - 3);
    assert_eq!(decode_into(&bytes, &mut destination), Err(DecodeError::TruncatedRecord));
    assert_eq!(destination, before);
    assert_eq!(decode_into(&[0x7F], &mut destination), Err(DecodeError::UnsupportedFormat));
    assert_eq!(destination, before);
}

#[test]
fn region_is_active_unless_its_id_is_zero() {
    assert!(PlacementRecord::Region { id: 1, x: 0, z: 0, w: 0, h: 0 }.is_active());
    assert!(PlacementRecord::Region { id: 0xFFFF, x: 0, z: 0, w: 1, h: 1 }.is_active());
    assert!(!PlacementRecord::Region { id: 0, x: 5, z: 5, w: 100, h: 100 }.is_active());
}

#[test]
fn sample_is_active_from_the_threshold_on() {
    assert_eq!(COVERAGE_THRESHOLD, 500);
    assert!(PlacementRecord::Sample { x: 0, z: 0, coverage: 500, height_hint: 0 }.is_active());
    assert!(PlacementRecord::Sample { x: 0, z: 0, coverage: 1000, height_hint: 0 }.is_active());
    assert!(!PlacementRecord::Sample { x: 0, z: 0, coverage: 499, height_hint: 1000 }.is_active());
}

#[test]
fn blade_count_is_a_quarter_of_the_area_rounded_down() {
    let region = |id, w, h| PlacementRecord::Region { id, x: 3, z: 4, w, h };
    assert_eq!(region(1, 4, 4).blades(), 4);
    assert_eq!(region(1, 3, 3).blades(), 2);
    assert_eq!(region(1, 1, 3).blades(), 0);
    assert_eq!(region(1, 0, 50).blades(), 0);
    assert_eq!(region(1, 10, 1).blades(), 2);
    assert_eq!(region(7, 0xFFFF, 0xFFFF).blades(), 1_073_709_056);
    assert_eq!(region(0, 4, 4).blades(), 0);
    assert_eq!(region(0, 0xFFFF, 0xFFFF).blades(), 0);
}

#[test]
fn sample_grows_one_blade_or_none() {
    assert_eq!(PlacementRecord::Sample { x: 1, z: 2, coverage: 900, height_hint: 5 }.blades(), 1);
    assert_eq!(PlacementRecord::Sample { x: 1, z: 2, coverage: 100, height_hint: 5 }.blades(), 0);
}
