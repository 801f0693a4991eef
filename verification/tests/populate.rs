//! Tests of populate-physmap result interpretation and buffer sizing.

use xenclient::call::{interpret_populate_result, memory_map_buffer_len};
use xenclient::error::Error;

#[test]
fn populate_full_returns_every_extent() {
    let extents = vec![0u64, 1, 2, 3];
    let out = interpret_populate_result(4, &extents).unwrap();
    assert_eq!(out, vec![0, 1, 2, 3]);
}

#[test]
fn populate_partial_truncates_to_the_result_code() {
    let extents = vec![0u64, 1, 2, 3];
    let out = interpret_populate_result(2, &extents).unwrap();
    assert_eq!(out, vec![0, 1]);
}

#[test]
fn populate_negative_code_fails() {
    let extents = vec![0u64, 1, 2, 3];
    let err = interpret_populate_result(!0u64, &extents).unwrap_err();
    assert_eq!(err, Error::PopulatePhysmapFailed);
}

#[test]
fn populate_impossible_count_fails() {
    let extents = vec![0u64, 1, 2, 3];
    let err = interpret_populate_result(5, &extents).unwrap_err();
    assert_eq!(err, Error::PopulatePhysmapFailed);
}

#[test]
fn populate_result_length_is_bounded_by_the_input() {
    for code in 0..=4u64 {
        let extents = vec![10u64, 11, 12, 13];
        let out = interpret_populate_result(code, &extents).unwrap();
        assert_eq!(out.len() as u64, code);
        assert!(out.len() <= extents.len());
        assert_eq!(&out[..], &extents[..code as usize]);
    }
}

#[test]
fn populate_zero_code_returns_nothing() {
    let extents = vec![7u64];
    let out = interpret_populate_result(0, &extents).unwrap();
    assert!(out.is_empty());
}

#[test]
fn memory_map_buffer_len_multiplies_and_guards_overflow() {
    assert_eq!(memory_map_buffer_len(12, 20), Some(240));
    assert_eq!(memory_map_buffer_len(0, 20), Some(0));
    assert_eq!(memory_map_buffer_len(u32::MAX, usize::MAX), None);
}
