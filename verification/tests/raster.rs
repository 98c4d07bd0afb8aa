use glow_bloom::raster::{plot_fits, CoverageCanvas, TextPlacement};

#[test]
fn new_canvas_is_blank() {
    let c = CoverageCanvas::new(4, 3);
    assert_eq!(c.width(), 4);
    assert_eq!(c.height(), 3);
    assert_eq!(c.as_bytes(), &[0u8; 12][..]);
}

#[test]
fn empty_canvas_has_no_cells() {
    let c = CoverageCanvas::new(0, 5);
    assert!(c.into_bytes().is_empty());
}

#[test]
fn placement_centres_text() {
    let p = TextPlacement::new(100, 50, 40, 10, 3, -12);
    assert_eq!(p, TextPlacement { min_x: 3, min_y: -12, offset_x: 30, offset_y: 20 });
}

#[test]
fn plot_flips_rows_into_texture_order() {
    // A 4x3 bitmap, text box 2x1 with its corner at (10, 20).
    let p = TextPlacement::new(4, 3, 2, 1, 10, 20);
    assert_eq!(p.offset_x, 1);
    assert_eq!(p.offset_y, 1);
    let mut c = CoverageCanvas::new(4, 3);
    c.plot(&p, 10, 20, 200);
    // column (10 - 10) + 1 = 1, row (3 - 1) - ((20 - 20) + 1) = 1: cell 1 + 1 * 4 = 5
    let mut expected = vec![0u8; 12];
    expected[5] = 200;
    assert_eq!(c.as_bytes(), &expected[..]);
    c.plot(&p, 11, 21, 7);
    // column 2, row 0: cell 2
    expected[2] = 7;
    assert_eq!(c.as_bytes(), &expected[..]);
}

#[test]
fn plot_outside_changes_nothing() {
    let p = TextPlacement { min_x: 0, min_y: 0, offset_x: 0, offset_y: 0 };
    let mut c = CoverageCanvas::new(3, 3);
    c.plot(&p, -1, 0, 9);
    c.plot(&p, 3, 0, 9);
    c.plot(&p, 0, 3, 9);
    c.plot(&p, 0, -1, 9);
    assert_eq!(c.into_bytes(), vec![0u8; 9]);
}

#[test]
fn plot_twice_is_plot_once() {
    let p = TextPlacement { min_x: 0, min_y: 0, offset_x: 0, offset_y: 0 };
    let mut once = CoverageCanvas::new(3, 2);
    once.plot(&p, 2, 0, 50);
    let mut twice = CoverageCanvas::new(3, 2);
    twice.plot(&p, 2, 0, 50);
    twice.plot(&p, 2, 0, 50);
    assert_eq!(once.as_bytes(), twice.as_bytes());
    // row 0 from the top is row 1 from the bottom: cell 2 + 1 * 3
    assert_eq!(once.as_bytes()[5], 50);
}

#[test]
fn later_plot_overwrites_earlier() {
    let p = TextPlacement { min_x: 0, min_y: 0, offset_x: 0, offset_y: 0 };
    let mut c = CoverageCanvas::new(2, 2);
    c.plot(&p, 0, 0, 10);
    c.plot(&p, 0, 0, 20);
    assert_eq!(c.as_bytes(), &[0, 0, 20, 0][..]);
}

#[test]
fn wide_single_row_canvas_draws_nothing() {
    // A width that reads as a negative i32 admits no column.
    let p = TextPlacement { min_x: 0, min_y: 0, offset_x: 0, offset_y: 0 };
    let mut c = CoverageCanvas::new(0x8000_0000, 1);
    c.plot(&p, 0, 0, 1);
    assert!(c.as_bytes().iter().all(|&b| b == 0));
}

#[test]
fn plot_fits_detects_overflow() {
    let p = TextPlacement { min_x: 0, min_y: 0, offset_x: 0, offset_y: 0 };
    assert!(plot_fits(10, &p, 3, 4));
    let far = TextPlacement { min_x: i32::MIN, min_y: 0, offset_x: 0, offset_y: 0 };
    assert!(!plot_fits(10, &far, 1, 0));
    // a height that reads as i32::MIN cannot have one taken off
    assert!(!plot_fits(0x8000_0000, &p, 0, 0));
}
