use doc_maker::sizer::{compute_page_size, MAX_PX, MM_SCALE, PX_TO_MM_SCALED};

#[test]
fn ten_by_twenty_pixels_at_300_dpi() {
    // 10 px at 300 DPI is 10 / 300 * 25.4 mm = 0.8466... mm = 1270/1500 mm.
    let s = compute_page_size(10, 20);
    assert_eq!(s.width_mm_scaled, 1270);
    assert_eq!(s.height_mm_scaled, 2540);
}

#[test]
fn matches_the_millimetre_formula() {
    let s = compute_page_size(10, 20);
    let width_mm = s.width_mm_scaled as f64 / MM_SCALE as f64;
    let height_mm = s.height_mm_scaled as f64 / MM_SCALE as f64;
    assert!((width_mm - 10.0 / 300.0 * 25.4).abs() < 1e-9);
    assert!((height_mm - 20.0 / 300.0 * 25.4).abs() < 1e-9);
    assert!((width_mm - 0.847).abs() < 1e-3);
    assert!((height_mm - 1.693).abs() < 1e-3);
}

#[test]
fn doubling_pixels_doubles_the_size_exactly() {
    let s = compute_page_size(123, 457);
    let d = compute_page_size(246, 914);
    assert_eq!(d.width_mm_scaled, 2 * s.width_mm_scaled);
    assert_eq!(d.height_mm_scaled, 2 * s.height_mm_scaled);
}

#[test]
fn one_pixel_and_the_largest_pixel_dimension() {
    let s = compute_page_size(1, MAX_PX);
    assert_eq!(s.width_mm_scaled, PX_TO_MM_SCALED);
    assert_eq!(s.height_mm_scaled, MAX_PX * PX_TO_MM_SCALED);
}
