use disc_label::layout::Layout;
use disc_label::text::{text_lines, Colour, TextLine};
use disc_label::units::PhysicalSpec;

const WHITE: Colour = Colour { red: 255, green: 255, blue: 255 };

#[test]
fn three_lines_with_a_release_year() {
    let lines = text_lines(&Layout::standard(), "A", "X", &Some("1999".to_string()));
    assert_eq!(
        lines,
        vec![
            TextLine { x: 40, y: 904, size: 60, colour: WHITE, text: "A".to_string() },
            TextLine { x: 40, y: 1004, size: 60, colour: WHITE, text: "X".to_string() },
            TextLine { x: 40, y: 1116, size: 60, colour: WHITE, text: "1999".to_string() },
        ]
    );
}

#[test]
fn two_lines_without_a_release_year() {
    let lines = text_lines(&Layout::standard(), "B", "Y", &None);
    assert_eq!(
        lines,
        vec![
            TextLine { x: 40, y: 904, size: 60, colour: WHITE, text: "B".to_string() },
            TextLine { x: 40, y: 1004, size: 60, colour: WHITE, text: "Y".to_string() },
        ]
    );
}

#[test]
fn year_does_not_move_title_or_artist() {
    let l = Layout::standard();
    let with = text_lines(&l, "Title", "Artist", &Some("2001".to_string()));
    let without = text_lines(&l, "Title", "Artist", &None);
    assert_eq!(with.len(), 3);
    assert_eq!(without.len(), 2);
    assert_eq!(with[0], without[0]);
    assert_eq!(with[1], without[1]);
    assert_eq!(&with[..2], &without[..]);
}

#[test]
fn text_is_drawn_as_given() {
    let lines = text_lines(&Layout::standard(), "mixed Case", "", &Some("".to_string()));
    assert_eq!(lines[0].text, "mixed Case");
    assert_eq!(lines[1].text, "");
    assert_eq!(lines[2].text, "");
    assert_eq!(lines.len(), 3);
}

#[test]
fn lines_follow_the_layout() {
    let l = Layout::new(PhysicalSpec::new(4, 6, 10, 6, 2).unwrap(), 2, 1, 2, 1).unwrap();
    let lines = text_lines(&l, "t", "a", &Some("y".to_string()));
    assert_eq!(
        lines,
        vec![
            TextLine { x: 2, y: 10, size: 1, colour: WHITE, text: "t".to_string() },
            TextLine { x: 2, y: 13, size: 1, colour: WHITE, text: "a".to_string() },
            TextLine { x: 2, y: 14, size: 1, colour: WHITE, text: "y".to_string() },
        ]
    );
}
