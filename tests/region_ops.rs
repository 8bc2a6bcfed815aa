use safemem::{checked_copy, copy, validate_copy, write_bytes, CopyError};

#[test]
#[should_panic]
fn test_bounds_check() {
    let mut arr = [0i32, 1, 2, 3, 4, 5];

    checked_copy(&mut arr, 2, 1, 7).unwrap();
}

#[test]
fn rejected_copy_leaves_region_unchanged() {
    let mut arr = [0i32, 1, 2, 3, 4, 5];
    let r = checked_copy(&mut arr, 2, 1, 7);
    assert_eq!(r, Err(CopyError::SrcRangeOutOfBounds { start: 2, len: 7, slice_len: 6 }));
    assert_eq!(arr, [0, 1, 2, 3, 4, 5]);
}

#[test]
fn overlapping_copy_towards_back() {
    let mut arr = [0i32, 1, 2, 3, 4, 5];
    copy(&mut arr, 0, 2, 3);
    assert_eq!(arr, [0, 1, 0, 1, 2, 5]);
}

#[test]
fn overlapping_copy_towards_front() {
    let mut arr = [0i32, 1, 2, 3, 4, 5];
    copy(&mut arr, 2, 0, 4);
    assert_eq!(arr, [2, 3, 4, 5, 4, 5]);
}

#[test]
fn disjoint_copy() {
    let mut arr = [10u64, 11, 12, 13, 14, 15, 16];
    assert_eq!(checked_copy(&mut arr, 0, 4, 3), Ok(()));
    assert_eq!(arr, [10, 11, 12, 13, 10, 11, 12]);
}

#[test]
fn copy_matches_temporary_buffer() {
    let original: Vec<u8> = (0u8..10).collect();
    for src in 0..10usize {
        for dest in 0..10usize {
            for len in 0..=(10 - src.max(dest)) {
                let mut region = original.clone();
                let buffer: Vec<u8> = original[src..src + len].to_vec();
                let mut expected = original.clone();
                expected[dest..dest + len].copy_from_slice(&buffer);
                copy(&mut region, src, dest, len);
                assert_eq!(region, expected);
            }
        }
    }
}

#[test]
fn copy_onto_itself_is_noop() {
    let mut arr = [7u8, 8, 9, 10];
    copy(&mut arr, 1, 1, 3);
    assert_eq!(arr, [7, 8, 9, 10]);
}

#[test]
fn empty_copy_is_noop() {
    let mut arr = [7u8, 8, 9, 10];
    assert_eq!(checked_copy(&mut arr, 3, 0, 0), Ok(()));
    assert_eq!(arr, [7, 8, 9, 10]);
}

#[test]
fn empty_copy_at_end_index_is_refused() {
    let mut arr = [7u8, 8, 9, 10];
    assert_eq!(
        checked_copy(&mut arr, 4, 0, 0),
        Err(CopyError::SrcIndexOutOfBounds { idx: 4, slice_len: 4 })
    );
    assert_eq!(arr, [7, 8, 9, 10]);
}

#[test]
fn range_ending_at_region_end_is_accepted() {
    let mut arr = [1u8, 2, 3, 4];
    assert_eq!(checked_copy(&mut arr, 2, 0, 2), Ok(()));
    assert_eq!(arr, [3, 4, 3, 4]);
}

#[test]
fn each_error_variant() {
    assert_eq!(
        validate_copy(6, 6, 0, 1),
        Err(CopyError::SrcIndexOutOfBounds { idx: 6, slice_len: 6 })
    );
    assert_eq!(
        validate_copy(6, 0, 9, 1),
        Err(CopyError::DestIndexOutOfBounds { idx: 9, slice_len: 6 })
    );
    assert_eq!(
        validate_copy(6, 1, 0, usize::MAX),
        Err(CopyError::SrcEndOverflow { start: 1, len: usize::MAX })
    );
    assert_eq!(
        validate_copy(6, 1, 0, 6),
        Err(CopyError::SrcRangeOutOfBounds { start: 1, len: 6, slice_len: 6 })
    );
    assert_eq!(
        validate_copy(usize::MAX, 0, 1, usize::MAX),
        Err(CopyError::DestEndOverflow { start: 1, len: usize::MAX })
    );
    assert_eq!(
        validate_copy(6, 0, 3, 4),
        Err(CopyError::DestRangeOutOfBounds { start: 3, len: 4, slice_len: 6 })
    );
    assert_eq!(validate_copy(6, 0, 3, 3), Ok(()));
}

#[test]
fn checks_run_in_order() {
    assert_eq!(
        validate_copy(3, 5, 7, usize::MAX),
        Err(CopyError::SrcIndexOutOfBounds { idx: 5, slice_len: 3 })
    );
    assert_eq!(
        validate_copy(3, 0, 7, usize::MAX),
        Err(CopyError::DestIndexOutOfBounds { idx: 7, slice_len: 3 })
    );
}

#[test]
fn overflowing_copy_leaves_region_unchanged() {
    let mut arr = [1u8, 2, 3];
    assert_eq!(
        checked_copy(&mut arr, 2, 0, usize::MAX),
        Err(CopyError::SrcEndOverflow { start: 2, len: usize::MAX })
    );
    assert_eq!(arr, [1, 2, 3]);
}

#[test]
fn fill_four_bytes() {
    let mut arr = [0u8, 0, 0, 0];
    write_bytes(&mut arr, 9);
    assert_eq!(arr, [9, 9, 9, 9]);
}

#[test]
fn fill_every_value() {
    let mut region = vec![3u8; 17];
    write_bytes(&mut region, 255);
    assert!(region.iter().all(|&b| b == 255));
    write_bytes(&mut region, 0);
    assert!(region.iter().all(|&b| b == 0));
    assert_eq!(region.len(), 17);
}

#[test]
fn fill_empty_region() {
    let mut region: [u8; 0] = [];
    write_bytes(&mut region, 42);
    assert_eq!(region.len(), 0);
}
