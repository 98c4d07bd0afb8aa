use glow_bloom::geometry::{bloom_extent, centered_offset, offset_fits, to_i32_wrapping};

#[test]
fn bloom_extent_is_a_quarter() {
    assert_eq!(bloom_extent(1024), 256);
    assert_eq!(bloom_extent(1023), 255);
    assert_eq!(bloom_extent(800), 200);
}

#[test]
fn bloom_extent_never_below_one() {
    assert_eq!(bloom_extent(0), 1);
    assert_eq!(bloom_extent(1), 1);
    assert_eq!(bloom_extent(3), 1);
    assert_eq!(bloom_extent(4), 1);
    assert_eq!(bloom_extent(8), 2);
}

#[test]
fn bloom_extent_of_largest_side() {
    assert_eq!(bloom_extent(u32::MAX), u32::MAX / 4);
}

#[test]
fn wrapping_cast_matches_as() {
    assert_eq!(to_i32_wrapping(5), 5);
    assert_eq!(to_i32_wrapping(i32::MAX as u32), i32::MAX);
    assert_eq!(to_i32_wrapping(0x8000_0000), i32::MIN);
    assert_eq!(to_i32_wrapping(u32::MAX), -1);
}

#[test]
fn centered_offset_even_and_odd_margins() {
    assert_eq!(centered_offset(100, 40), 30);
    assert_eq!(centered_offset(101, 40), 30);
    assert_eq!(centered_offset(40, 40), 0);
}

#[test]
fn centered_offset_of_wider_text_rounds_toward_zero() {
    assert_eq!(centered_offset(100, 103), -1);
    assert_eq!(centered_offset(100, 105), -2);
    assert_eq!(centered_offset(0, 7), -3);
}

#[test]
fn centered_span_fits_window() {
    for win in [1u32, 2, 7, 100, 1024] {
        for text in 0..=win {
            let off = centered_offset(win, text);
            assert!(off >= 0);
            let left = off as u32;
            let right = win - (left + text);
            assert!(right == left || right == left + 1);
        }
    }
}

#[test]
fn offset_fits_detects_overflow() {
    assert!(offset_fits(100, 40));
    assert!(offset_fits(0, u32::MAX));
    // i32::MAX - i32::MIN does not fit an i32
    assert!(!offset_fits(i32::MAX as u32, 0x8000_0000));
    assert!(!offset_fits(0x8000_0000, 1));
}
