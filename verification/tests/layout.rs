use disc_label::layout::Layout;
use disc_label::units::PhysicalSpec;

fn small_layout() -> Layout {
    Layout::new(PhysicalSpec::new(4, 6, 10, 6, 2).unwrap(), 2, 1, 2, 1).unwrap()
}

#[test]
fn standard_distances() {
    let l = Layout::standard();
    assert_eq!(l.padding, 40);
    assert_eq!(l.margin, 20);
    assert_eq!(l.logo_size, 160);
    assert_eq!(l.text_size, 60);
    assert_eq!(l.label_width_px(), 864);
    assert_eq!(l.label_height_px(), 1200);
    assert_eq!(l.sheet_width_px(), 1824);
    assert_eq!(l.sheet_height_px(), 1200);
}

#[test]
fn text_band_is_what_the_cover_leaves() {
    assert_eq!(Layout::standard().text_band(), (336, 112));
    assert_eq!(small_layout().text_band(), (4, 1));
}

#[test]
fn logo_sits_half_a_padding_from_the_corner() {
    assert_eq!(Layout::standard().logo_position(), (684, 1020));
    assert_eq!(small_layout().logo_position(), (5, 9));
}

#[test]
fn text_rows_of_the_standard_label() {
    let l = Layout::standard();
    assert_eq!(l.title_position(), (40, 904));
    assert_eq!(l.artist_position(), (40, 1004));
    assert_eq!(l.year_position(), (40, 1116));
}

#[test]
fn text_rows_of_a_small_label() {
    let l = small_layout();
    assert_eq!(l.title_position(), (2, 10));
    assert_eq!(l.artist_position(), (2, 13));
    assert_eq!(l.year_position(), (2, 14));
}

#[test]
fn label_offsets_follow_the_formula() {
    let l = Layout::standard();
    assert_eq!(l.label_offset(0), 40);
    assert_eq!(l.label_offset(1), 924);
    assert_eq!(l.label_offset(2), 1808);
    for k in 0usize..50 {
        assert_eq!(l.label_offset(k), (k as u128) * 864 + 20 * (k as u128 + 2));
    }
}

#[test]
fn label_offsets_grow_and_labels_do_not_overlap() {
    let l = Layout::standard();
    for k in 0usize..50 {
        assert!(l.label_offset(k) < l.label_offset(k + 1));
        assert!(l.label_offset(k) + 864 <= l.label_offset(k + 1));
        assert_eq!(l.label_offset(k + 1) - l.label_offset(k), 884);
    }
}

#[test]
fn label_offset_of_the_largest_position() {
    let l = Layout::standard();
    let k = usize::MAX as u128;
    assert_eq!(l.label_offset(usize::MAX), k * 864 + 20 * (k + 2));
}

#[test]
fn two_standard_labels_fit_and_three_do_not() {
    let l = Layout::standard();
    assert!(l.labels_fit(0));
    assert!(l.labels_fit(1));
    assert!(l.labels_fit(2));
    assert!(!l.labels_fit(3));
    assert!(!l.labels_fit(usize::MAX));
}

#[test]
fn layout_rejects_a_label_wider_than_tall() {
    let p = PhysicalSpec::new(6, 4, 10, 6, 2).unwrap();
    assert!(Layout::new(p, 2, 1, 2, 1).is_none());
}

#[test]
fn layout_rejects_a_label_larger_than_the_sheet() {
    let wide = PhysicalSpec::new(4, 6, 3, 6, 2).unwrap();
    assert!(Layout::new(wide, 2, 1, 2, 1).is_none());
    let tall = PhysicalSpec::new(4, 6, 10, 5, 2).unwrap();
    assert!(Layout::new(tall, 2, 1, 2, 1).is_none());
}

#[test]
fn layout_rejects_a_logo_that_leaves_the_label() {
    let p = PhysicalSpec::new(4, 6, 10, 6, 2).unwrap();
    assert!(Layout::new(p, 2, 1, 7, 1).is_some());
    assert!(Layout::new(p, 2, 1, 8, 1).is_none());
    assert!(Layout::new(p, 0, 1, 8, 1).is_some());
}

#[test]
fn layout_rejects_text_rows_beyond_32_bits() {
    let p = PhysicalSpec::new(4, 6, 10, 6, 2).unwrap();
    assert!(Layout::new(p, 2, 1, 2, u32::MAX).is_none());
    assert!(Layout::new(p, 2, 1, 2, 2147483634).is_some());
    assert!(Layout::new(p, 2, 1, 2, 2147483635).is_none());
}

#[test]
fn layout_rejects_invalid_physical_sizes() {
    let p = PhysicalSpec { label_width_mm: 0, label_height_mm: 6, sheet_width_mm: 10, sheet_height_mm: 6, dpmm: 2 };
    assert!(Layout::new(p, 2, 1, 2, 1).is_none());
}

#[test]
fn layout_keeps_what_it_is_given() {
    let p = PhysicalSpec::new(36, 50, 76, 50, 24).unwrap();
    let l = Layout::new(p, 40, 20, 160, 60).unwrap();
    let s = Layout::standard();
    assert_eq!(l.padding, s.padding);
    assert_eq!(l.margin, s.margin);
    assert_eq!(l.logo_size, s.logo_size);
    assert_eq!(l.text_size, s.text_size);
    assert_eq!(l.physical.dpmm, 24);
    assert_eq!(l.logo_position(), s.logo_position());
}
