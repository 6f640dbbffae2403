use disc_label::layout::Layout;
use disc_label::raster::Raster;
use disc_label::sheet::{assemble_sheet, blank_sheet, place_label};
use disc_label::units::PhysicalSpec;

fn narrow_layout() -> Layout {
    Layout::new(PhysicalSpec::new(4, 6, 10, 6, 2).unwrap(), 2, 1, 2, 1).unwrap()
}

#[test]
fn blank_sheet_is_white_and_of_sheet_size() {
    let sheet = blank_sheet(&narrow_layout());
    assert_eq!((sheet.width(), sheet.height()), (20, 12));
    assert_eq!(sheet.as_bytes(), &vec![255u8; 20 * 12 * 3]);
}

#[test]
fn standard_blank_sheet_is_1824_by_1200() {
    let sheet = blank_sheet(&Layout::standard());
    assert_eq!((sheet.width(), sheet.height()), (1824, 1200));
    assert_eq!(sheet.as_bytes().len(), 1824 * 1200 * 3);
    assert!(sheet.as_bytes().iter().all(|b| *b == 255));
}

#[test]
fn label_is_placed_at_its_offset() {
    let l = narrow_layout();
    let mut sheet = blank_sheet(&l);
    place_label(&l, &mut sheet, &Raster::solid(8, 12, 1), 1);
    for y in 0..12 {
        for x in 0..20 {
            let expected = if (11..19).contains(&x) { (1, 1, 1) } else { (255, 255, 255) };
            assert_eq!(sheet.pixel(x, y), expected);
        }
    }
}

#[test]
fn labels_are_placed_left_to_right_in_order() {
    let l = narrow_layout();
    let labels = vec![Raster::solid(8, 12, 1), Raster::solid(8, 12, 2)];
    let sheet = assemble_sheet(&l, &labels);
    assert_eq!((sheet.width(), sheet.height()), (20, 12));
    for y in 0..12 {
        for x in 0..20 {
            let expected = if (2..10).contains(&x) {
                (1, 1, 1)
            } else if (11..19).contains(&x) {
                (2, 2, 2)
            } else {
                (255, 255, 255)
            };
            assert_eq!(sheet.pixel(x, y), expected);
        }
    }
}

#[test]
fn label_pixels_arrive_unchanged() {
    let l = narrow_layout();
    let mut data = Vec::new();
    for i in 0..(8 * 12 * 3) {
        data.push((i % 251) as u8);
    }
    let label = Raster::from_raw(8, 12, data).unwrap();
    let sheet = assemble_sheet(&l, &vec![Raster::solid(8, 12, 0), label.clone()]);
    for y in 0..12 {
        for x in 0..8 {
            assert_eq!(sheet.pixel(11 + x, y), label.pixel(x, y));
        }
    }
}

#[test]
fn no_labels_leave_the_sheet_blank() {
    let l = narrow_layout();
    let sheet = assemble_sheet(&l, &Vec::new());
    assert_eq!(sheet.as_bytes(), blank_sheet(&l).as_bytes());
}

#[test]
fn label_beyond_the_sheet_is_dropped() {
    let l = narrow_layout();
    let two = assemble_sheet(&l, &vec![Raster::solid(8, 12, 1), Raster::solid(8, 12, 2)]);
    let three = assemble_sheet(
        &l,
        &vec![Raster::solid(8, 12, 1), Raster::solid(8, 12, 2), Raster::solid(8, 12, 3)],
    );
    assert_eq!(two.as_bytes(), three.as_bytes());
}

#[test]
fn label_across_the_edge_is_clipped() {
    let l = Layout::standard();
    let labels = vec![
        Raster::solid(864, 1200, 1),
        Raster::solid(864, 1200, 2),
        Raster::solid(864, 1200, 3),
    ];
    let sheet = assemble_sheet(&l, &labels);
    assert_eq!((sheet.width(), sheet.height()), (1824, 1200));
    assert_eq!(sheet.pixel(0, 0), (255, 255, 255));
    assert_eq!(sheet.pixel(39, 600), (255, 255, 255));
    assert_eq!(sheet.pixel(40, 0), (1, 1, 1));
    assert_eq!(sheet.pixel(903, 1199), (1, 1, 1));
    assert_eq!(sheet.pixel(904, 0), (255, 255, 255));
    assert_eq!(sheet.pixel(923, 0), (255, 255, 255));
    assert_eq!(sheet.pixel(924, 0), (2, 2, 2));
    assert_eq!(sheet.pixel(1787, 1199), (2, 2, 2));
    assert_eq!(sheet.pixel(1788, 0), (255, 255, 255));
    assert_eq!(sheet.pixel(1807, 0), (255, 255, 255));
    assert_eq!(sheet.pixel(1808, 0), (3, 3, 3));
    assert_eq!(sheet.pixel(1823, 1199), (3, 3, 3));
}

#[test]
fn label_at_a_position_too_large_to_count_changes_nothing() {
    let l = narrow_layout();
    let mut sheet = blank_sheet(&l);
    place_label(&l, &mut sheet, &Raster::solid(8, 12, 1), usize::MAX);
    assert_eq!(sheet.as_bytes(), blank_sheet(&l).as_bytes());
    place_label(&l, &mut sheet, &Raster::solid(8, 12, 1), 2);
    assert_eq!(sheet.as_bytes(), blank_sheet(&l).as_bytes());
}

#[test]
fn later_label_is_laid_over_what_is_there() {
    let l = narrow_layout();
    let mut sheet = blank_sheet(&l);
    place_label(&l, &mut sheet, &Raster::solid(12, 12, 1), 0);
    place_label(&l, &mut sheet, &Raster::solid(8, 6, 2), 1);
    assert_eq!(sheet.pixel(10, 0), (1, 1, 1));
    assert_eq!(sheet.pixel(11, 0), (2, 2, 2));
    assert_eq!(sheet.pixel(13, 5), (2, 2, 2));
    assert_eq!(sheet.pixel(13, 6), (1, 1, 1));
    assert_eq!(sheet.pixel(14, 6), (255, 255, 255));
    assert_eq!(sheet.pixel(18, 5), (2, 2, 2));
    assert_eq!(sheet.pixel(19, 5), (255, 255, 255));
}
