use std::path::PathBuf;

use dustmaps_api::bayestar::{
    check_bestfit_shape, check_lookup_table, check_lookup_vector, check_map_shapes, dm_bin_ceil,
    dm_bracket, footprint_row, footprint_row_in, lookup_view, BayestarError, DmBracket,
    BAYESTAR_MISSING, BAYESTAR_NPIX, BAYESTAR_NSIDE, BAYESTAR_N_DIST,
};
use dustmaps_api::csfd::{check_csfd_len, csfd_pixel_index, CsfdError, CSFD_NPIX, CSFD_NSIDE};
use dustmaps_api::geometry::nested_depth;
use dustmaps_api::npy::data_follows_npy_header;
use ndarray_npy::WriteNpyExt;

fn npy_bytes_u32(values: Vec<u32>) -> Vec<u8> {
    let mut bytes = Vec::new();
    ndarray::Array1::from(values).write_npy(&mut bytes).expect("write npy");
    bytes
}

fn npy_bytes_f32(values: Vec<f32>) -> Vec<u8> {
    let mut bytes = Vec::new();
    ndarray::Array1::from(values).write_npy(&mut bytes).expect("write npy");
    bytes
}

/// `ceil(8 * dm)`, the input of the bin search for a distance modulus.
fn dm_ceil_eighths(dm: f32) -> i64 {
    (8.0_f32 * dm).ceil() as i64
}

#[test]
fn nested_depth_is_log2_of_power_of_two_nside() {
    assert_eq!(nested_depth(1), Some(0));
    assert_eq!(nested_depth(2), Some(1));
    assert_eq!(nested_depth(BAYESTAR_NSIDE), Some(10));
    assert_eq!(nested_depth(CSFD_NSIDE), Some(12));
    assert_eq!(nested_depth(1 << 29), Some(29));
}

#[test]
fn nested_depth_rejects_invalid_nside() {
    assert_eq!(nested_depth(0), None);
    assert_eq!(nested_depth(3), None);
    assert_eq!(nested_depth(1000), None);
    assert_eq!(nested_depth(1 << 30), None);
    assert_eq!(nested_depth(u32::MAX), None);
}

#[test]
fn map_sizes_are_twelve_nside_squared() {
    assert_eq!(BAYESTAR_NPIX, 12 * 1024 * 1024);
    assert_eq!(BAYESTAR_NPIX, 12 * (BAYESTAR_NSIDE as usize).pow(2));
    assert_eq!(CSFD_NPIX, 12 * (CSFD_NSIDE as usize).pow(2));
    assert_eq!(CSFD_NSIDE, 4096);
    assert_eq!(CSFD_NPIX, 201_326_592);
}

#[test]
fn bestfit_shape_needs_one_column_per_bin() {
    assert!(matches!(check_bestfit_shape(7, BAYESTAR_N_DIST), Ok(7)));
    assert!(matches!(check_bestfit_shape(0, BAYESTAR_N_DIST), Ok(0)));
    assert!(matches!(
        check_bestfit_shape(7, 119),
        Err(BayestarError::WrongBestfitShape { rows: 7, cols: 119, expected_cols: 120 })
    ));
}

#[test]
fn lookup_check_rejects_wrong_shape() {
    let path = PathBuf::from("lookup.npy");
    let bytes = npy_bytes_u32(vec![0]);
    assert!(matches!(
        check_lookup_table(&bytes, &path),
        Err(BayestarError::WrongLookupShape { actual: 1, expected: BAYESTAR_NPIX })
    ));
}

#[test]
fn lookup_check_accepts_full_table() {
    let path = PathBuf::from("lookup.npy");
    let bytes = npy_bytes_u32(vec![BAYESTAR_MISSING; BAYESTAR_NPIX]);
    assert!(check_lookup_table(&bytes, &path).is_ok());
}

#[test]
fn lookup_check_rejects_wrong_element_type() {
    let path = PathBuf::from("lookup.npy");
    let bytes = npy_bytes_f32(vec![0.0; 4]);
    match check_lookup_table(&bytes, &path) {
        Err(BayestarError::InvalidNpy { path: reported, .. }) => assert_eq!(reported, path),
        other => panic!("expected InvalidNpy, got {other:?}"),
    }
}

#[test]
fn lookup_check_rejects_garbage() {
    let path = PathBuf::from("/data/bayestar_lookup.npy");
    match check_lookup_table(b"not an npy file", &path) {
        Err(BayestarError::InvalidNpy { path: reported, .. }) => assert_eq!(reported, path),
        other => panic!("expected InvalidNpy, got {other:?}"),
    }
}

#[test]
fn footprint_row_reads_lookup_entries() {
    let path = PathBuf::from("lookup.npy");
    let bytes = npy_bytes_u32(vec![5, BAYESTAR_MISSING, 2, 0]);
    assert!(matches!(footprint_row(&bytes, &path, 2, 3), Ok(Some(2))));
    assert!(matches!(footprint_row(&bytes, &path, 3, 3), Ok(Some(0))));
}

#[test]
fn footprint_row_is_none_outside_the_footprint() {
    let path = PathBuf::from("lookup.npy");
    let bytes = npy_bytes_u32(vec![5, BAYESTAR_MISSING, 2, 0]);
    assert!(matches!(footprint_row(&bytes, &path, 1, 3), Ok(None)));
    assert!(matches!(footprint_row(&bytes, &path, 4, 3), Ok(None)));
    assert!(matches!(footprint_row(&bytes, &path, u64::MAX, 3), Ok(None)));
}

#[test]
fn footprint_row_rejects_rows_past_the_bestfit_table() {
    let path = PathBuf::from("lookup.npy");
    let bytes = npy_bytes_u32(vec![5, BAYESTAR_MISSING, 2, 0]);
    assert!(matches!(
        footprint_row(&bytes, &path, 0, 3),
        Err(BayestarError::RowOutOfRange { row: 5, rows: 3 })
    ));
    assert!(matches!(
        footprint_row(&bytes, &path, 2, 2),
        Err(BayestarError::RowOutOfRange { row: 2, rows: 2 })
    ));
}

#[test]
fn footprint_row_reports_malformed_lookup() {
    let path = PathBuf::from("lookup.npy");
    match footprint_row(b"\x93NUMPY broken", &path, 0, 3) {
        Err(BayestarError::InvalidNpy { path: reported, .. }) => assert_eq!(reported, path),
        other => panic!("expected InvalidNpy, got {other:?}"),
    }
}

#[test]
fn dm_bin_search_matches_searchsorted_left() {
    assert_eq!(dm_bin_ceil(i64::MIN), 0);
    assert_eq!(dm_bin_ceil(0), 0);
    assert_eq!(dm_bin_ceil(32), 0);
    assert_eq!(dm_bin_ceil(33), 1);
    assert_eq!(dm_bin_ceil(34), 2);
    assert_eq!(dm_bin_ceil(32 + 119), 119);
    assert_eq!(dm_bin_ceil(32 + 120), 120);
    assert_eq!(dm_bin_ceil(i64::MAX), 120);
}

#[test]
fn dm_bracket_covers_all_branches_and_left_search() {
    assert_eq!(dm_bracket(dm_ceil_eighths(3.0)), DmBracket::BeforeFirst);
    assert_eq!(dm_bracket(dm_ceil_eighths(4.125)), DmBracket::Between { lower: 0, upper: 1 });
    assert_eq!(dm_bracket(dm_ceil_eighths(4.0)), DmBracket::BeforeFirst);
    assert_eq!(dm_bracket(dm_ceil_eighths(19.0)), DmBracket::PastLast);
}

#[test]
fn dm_bracket_between_edges() {
    assert_eq!(dm_bracket(dm_ceil_eighths(4.1)), DmBracket::Between { lower: 0, upper: 1 });
    assert_eq!(dm_bracket(dm_ceil_eighths(10.3)), DmBracket::Between { lower: 50, upper: 51 });
    assert_eq!(dm_bracket(dm_ceil_eighths(18.875)), DmBracket::Between { lower: 118, upper: 119 });
    assert_eq!(dm_bracket(dm_ceil_eighths(18.9)), DmBracket::PastLast);
    assert_eq!(dm_bracket(dm_ceil_eighths(f32::INFINITY)), DmBracket::PastLast);
    assert_eq!(dm_bracket(dm_ceil_eighths(f32::NEG_INFINITY)), DmBracket::BeforeFirst);
    assert_eq!(dm_bracket(dm_ceil_eighths(f32::NAN)), DmBracket::BeforeFirst);
}

#[test]
fn csfd_length_check() {
    assert!(check_csfd_len(CSFD_NPIX).is_ok());
    assert!(matches!(
        check_csfd_len(2),
        Err(CsfdError::WrongShape { actual: 2, expected: CSFD_NPIX })
    ));
}

#[test]
fn csfd_pixel_index_in_and_out_of_range() {
    assert!(matches!(csfd_pixel_index(0, 4), Ok(0)));
    assert!(matches!(csfd_pixel_index(3, 4), Ok(3)));
    assert!(matches!(csfd_pixel_index(4, 4), Err(CsfdError::PixelOutOfRange(4))));
    assert!(matches!(
        csfd_pixel_index(CSFD_NPIX as u64, CSFD_NPIX),
        Err(CsfdError::PixelOutOfRange(p)) if p == CSFD_NPIX as u64
    ));
}

#[test]
fn lookup_vector_check_and_rows_of_a_parsed_table() {
    let path = PathBuf::from("lookup.npy");
    let bytes = npy_bytes_u32(vec![5, BAYESTAR_MISSING, 2, 0]);
    let vector = lookup_view(&bytes, &path).expect("well-formed table");
    assert!(matches!(
        check_lookup_vector(&vector),
        Err(BayestarError::WrongLookupShape { actual: 4, expected: BAYESTAR_NPIX })
    ));
    assert!(matches!(footprint_row_in(&vector, 1, 3), Ok(None)));
    assert!(matches!(footprint_row_in(&vector, 9, 3), Ok(None)));
    assert!(matches!(footprint_row_in(&vector, 2, 3), Ok(Some(2))));
    assert!(matches!(
        footprint_row_in(&vector, 0, 3),
        Err(BayestarError::RowOutOfRange { row: 5, rows: 3 })
    ));
}

#[test]
fn map_shapes_are_checked_in_order() {
    let lookup_path = PathBuf::from("lookup.npy");
    let short = npy_bytes_u32(vec![0]);
    assert!(matches!(
        check_map_shapes(&short, &lookup_path, Ok((1, BAYESTAR_N_DIST))),
        Err(BayestarError::WrongLookupShape { actual: 1, expected: BAYESTAR_NPIX })
    ));
    assert!(matches!(
        check_map_shapes(b"garbage", &lookup_path, Ok((1, 7))),
        Err(BayestarError::InvalidNpy { .. })
    ));
    let full = npy_bytes_u32(vec![BAYESTAR_MISSING; BAYESTAR_NPIX]);
    assert!(matches!(check_map_shapes(&full, &lookup_path, Ok((9, BAYESTAR_N_DIST))), Ok(9)));
    assert!(matches!(
        check_map_shapes(&full, &lookup_path, Ok((9, 7))),
        Err(BayestarError::WrongBestfitShape { rows: 9, cols: 7, expected_cols: 120 })
    ));
    let bestfit_error = check_lookup_table(b"garbage", &PathBuf::from("bestfit.npy"))
        .expect_err("malformed");
    match check_map_shapes(&full, &lookup_path, Err(bestfit_error)) {
        Err(BayestarError::InvalidNpy { path, .. }) => assert_eq!(path, PathBuf::from("bestfit.npy")),
        other => panic!("expected the best-fit error, got {other:?}"),
    }
}

/// A version-1.0 `.npy` file made of a header alone, declaring `shape`.
fn npy_header_only(shape: &str) -> Vec<u8> {
    let mut dict = format!("{{'descr': '<u4', 'fortran_order': False, 'shape': {shape}, }}");
    while (10 + dict.len() + 1) % 64 != 0 {
        dict.push(' ');
    }
    dict.push('\n');
    let mut bytes = b"\x93NUMPY\x01\x00".to_vec();
    bytes.extend_from_slice(&(dict.len() as u16).to_le_bytes());
    bytes.extend_from_slice(dict.as_bytes());
    bytes
}

#[test]
fn data_follows_header_detection() {
    assert!(data_follows_npy_header(&npy_bytes_u32(vec![1, 2])));
    assert!(!data_follows_npy_header(&npy_bytes_u32(vec![])));
    assert!(!data_follows_npy_header(&npy_header_only("(0, 9223372036854775808)")));
    assert!(data_follows_npy_header(b"not an npy file"));
    assert!(data_follows_npy_header(b""));
}

#[test]
fn header_without_data_reads_as_empty_table() {
    let path = PathBuf::from("lookup.npy");
    for bytes in [npy_bytes_u32(vec![]), npy_header_only("(0, 9223372036854775808)")] {
        assert!(matches!(
            check_lookup_table(&bytes, &path),
            Err(BayestarError::WrongLookupShape { actual: 0, expected: BAYESTAR_NPIX })
        ));
        assert!(matches!(footprint_row(&bytes, &path, 0, 3), Ok(None)));
    }
}
