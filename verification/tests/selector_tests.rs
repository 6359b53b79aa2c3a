use oekakusa::errors::ExtractError;
use oekakusa::materialize::thumb_dims;
use oekakusa::selector::{first_qualifying, select_preview_blob};

#[test]
fn short_binary_column_is_metadata_not_preview() {
    let short = vec![0u8; 100];
    let tables = vec![None, Some(vec![Some(short)]), None];
    let r = select_preview_blob(&tables);
    assert!(matches!(r, Err(ExtractError::NoPreviewFound)));
}

#[test]
fn threshold_is_strict() {
    let just_over = vec![7u8; 101];
    assert_eq!(first_qualifying(&vec![Some(just_over.clone())]), Some(just_over));
    assert_eq!(first_qualifying(&vec![Some(vec![7u8; 100])]), None);
    assert_eq!(first_qualifying(&vec![None, None]), None);
    assert_eq!(first_qualifying(&vec![]), None);
}

#[test]
fn selection_respects_table_then_column_order() {
    let big_a = vec![1u8; 200];
    let big_b = vec![2u8; 200];
    let small = vec![3u8; 10];
    let tables = vec![
        None,
        Some(vec![None, Some(small), Some(big_a.clone()), Some(big_b.clone())]),
        Some(vec![Some(big_b.clone())]),
    ];
    assert_eq!(select_preview_blob(&tables).unwrap(), big_a);
}

#[test]
fn empty_and_absent_tables_are_skipped() {
    let big = vec![9u8; 150];
    let tables = vec![None, Some(vec![]), Some(vec![Some(big.clone())])];
    assert_eq!(select_preview_blob(&tables).unwrap(), big);
    let none: Vec<Option<Vec<Option<Vec<u8>>>>> = vec![None, None, None];
    assert!(matches!(select_preview_blob(&none), Err(ExtractError::NoPreviewFound)));
}

#[test]
fn thumb_dims_fit_within_bound() {
    assert_eq!(thumb_dims(600, 300), (300, 150));
    assert_eq!(thumb_dims(50, 100), (150, 300));
    assert_eq!(thumb_dims(1000, 1000), (300, 300));
    assert_eq!(thumb_dims(300, 300), (300, 300));
}

#[test]
fn thumb_dims_upscale_small_sources() {
    assert_eq!(thumb_dims(100, 50), (300, 150));
    assert_eq!(thumb_dims(1, 1), (300, 300));
}

#[test]
fn thumb_dims_clamp_degenerate_sources() {
    assert_eq!(thumb_dims(0, 5), (1, 1));
    assert_eq!(thumb_dims(5, 0), (1, 1));
    assert_eq!(thumb_dims(100000, 1), (300, 1));
}

#[test]
fn thumb_dims_round_to_nearest() {
    assert_eq!(thumb_dims(300, 100), (300, 100));
    assert_eq!(thumb_dims(301, 100), (300, 100));
    assert_eq!(thumb_dims(299, 100), (300, 100));
    assert_eq!(thumb_dims(400, 300), (300, 225));
}
