use shrs_line::buffer::Buffer;
use shrs_line::error::LineError;
use shrs_utils::{Error, Location};

fn filled(text: &str) -> Buffer {
    let mut b = Buffer::new();
    b.insert(Location::Rel(0), text).unwrap();
    b
}

#[test]
fn new_buffer_is_empty() {
    let b = Buffer::new();
    assert_eq!(b.len(), 0);
    assert_eq!(b.cursor(), 0);
    assert_eq!(b.contents(), "");
}

#[test]
fn insert_puts_text_at_cursor_and_moves_behind_it() {
    let mut b = filled("hello world");
    assert_eq!(b.contents(), "hello world");
    assert_eq!(b.cursor(), 11);
    assert_eq!(b.len(), 11);
    b.move_cursor(Location::Abs(5)).unwrap();
    b.insert(Location::Rel(0), ",").unwrap();
    assert_eq!(b.contents(), "hello, world");
    assert_eq!(b.cursor(), 6);
}

#[test]
fn insert_at_absolute_location() {
    let mut b = filled("world");
    b.insert(Location::Abs(0), "hello ").unwrap();
    assert_eq!(b.contents(), "hello world");
    assert_eq!(b.cursor(), 6);
}

#[test]
fn insert_counts_characters_not_bytes() {
    let mut b = filled("こんにちは");
    assert_eq!(b.len(), 5);
    assert_eq!(b.cursor(), 5);
    b.move_cursor(Location::Abs(1)).unwrap();
    b.insert(Location::Rel(0), "こここ").unwrap();
    assert_eq!(b.cursor(), 4);
    assert_eq!(b.len(), 8);
}

#[test]
fn insert_at_invalid_location_changes_nothing() {
    let mut b = filled("abc");
    assert_eq!(
        b.insert(Location::Abs(4), "x"),
        Err(LineError::InvalidAbsoluteLocation(4))
    );
    assert_eq!(
        b.insert(Location::Rel(1), "x"),
        Err(LineError::InvalidRelativeLocation(1))
    );
    assert_eq!(b.contents(), "abc");
    assert_eq!(b.cursor(), 3);
}

#[test]
fn delete_removes_range_and_moves_cursor_to_its_start() {
    let mut b = filled("hello world");
    b.delete(Location::Abs(0), Location::Abs(6)).unwrap();
    assert_eq!(b.contents(), "world");
    assert_eq!(b.cursor(), 0);
}

#[test]
fn delete_takes_locations_in_either_order() {
    let mut b = filled("hello world");
    b.delete(Location::Rel(0), Location::Abs(5)).unwrap();
    assert_eq!(b.contents(), "hello");
    assert_eq!(b.cursor(), 5);
}

#[test]
fn delete_before_cursor() {
    let mut b = filled("abc");
    b.delete(Location::Rel(-1), Location::Rel(0)).unwrap();
    assert_eq!(b.contents(), "ab");
    assert_eq!(b.cursor(), 2);
}

#[test]
fn delete_reports_first_invalid_location() {
    let mut b = filled("abc");
    assert_eq!(
        b.delete(Location::Abs(9), Location::Rel(5)),
        Err(LineError::InvalidAbsoluteLocation(9))
    );
    assert_eq!(
        b.delete(Location::Abs(1), Location::Rel(5)),
        Err(LineError::InvalidRelativeLocation(5))
    );
    assert_eq!(
        b.delete(Location::Abs(1), Location::Rel(isize::MAX)),
        Err(LineError::InvalidRelativeLocation(isize::MAX))
    );
    assert_eq!(
        b.delete(Location::Rel(isize::MAX), Location::Abs(1)),
        Err(LineError::InvalidRelativeLocation(isize::MAX))
    );
    assert_eq!(b.contents(), "abc");
    assert_eq!(b.cursor(), 3);
}

#[test]
fn move_cursor_inside_text() {
    let mut b = filled("abc");
    b.move_cursor(Location::Abs(1)).unwrap();
    assert_eq!(b.cursor(), 1);
    b.move_cursor(Location::Rel(2)).unwrap();
    assert_eq!(b.cursor(), 3);
    b.move_cursor(Location::Rel(-3)).unwrap();
    assert_eq!(b.cursor(), 0);
    assert_eq!(b.contents(), "abc");
}

#[test]
fn move_cursor_outside_text_fails_and_keeps_cursor() {
    let mut b = filled("abc");
    b.move_cursor(Location::Abs(1)).unwrap();
    assert_eq!(
        b.move_cursor(Location::Rel(-2)),
        Err(LineError::InvalidRelativeLocation(-2))
    );
    assert_eq!(
        b.move_cursor(Location::Rel(3)),
        Err(LineError::InvalidRelativeLocation(3))
    );
    assert_eq!(
        b.move_cursor(Location::Abs(4)),
        Err(LineError::InvalidAbsoluteLocation(4))
    );
    assert_eq!(
        b.move_cursor(Location::Rel(isize::MAX)),
        Err(LineError::InvalidRelativeLocation(isize::MAX))
    );
    assert_eq!(
        b.move_cursor(Location::Rel(isize::MIN)),
        Err(LineError::InvalidRelativeLocation(isize::MIN))
    );
    assert_eq!(b.cursor(), 1);
}

#[test]
fn locate_resolves_without_moving() {
    let mut b = filled("abcd");
    b.move_cursor(Location::Abs(2)).unwrap();
    assert_eq!(b.locate(Location::Rel(0)), Ok(2));
    assert_eq!(b.locate(Location::Rel(-2)), Ok(0));
    assert_eq!(b.locate(Location::Rel(2)), Ok(4));
    assert_eq!(b.locate(Location::Abs(4)), Ok(4));
    assert_eq!(
        b.locate(Location::Rel(-3)),
        Err(LineError::InvalidRelativeLocation(-3))
    );
    assert_eq!(
        b.locate(Location::Abs(5)),
        Err(LineError::InvalidAbsoluteLocation(5))
    );
    assert_eq!(b.cursor(), 2);
}

#[test]
fn char_at_gives_character_or_nothing() {
    let mut b = filled("abc");
    assert_eq!(b.char_at(Location::Abs(0)), Some('a'));
    assert_eq!(b.char_at(Location::Abs(2)), Some('c'));
    assert_eq!(b.char_at(Location::Abs(3)), None);
    assert_eq!(b.char_at(Location::Abs(7)), None);
    assert_eq!(b.char_at(Location::Rel(-1)), Some('c'));
    assert_eq!(b.char_at(Location::Rel(0)), None);
    assert_eq!(b.char_at(Location::Rel(isize::MAX)), None);
    b.move_cursor(Location::Abs(1)).unwrap();
    assert_eq!(b.char_at(Location::Rel(0)), Some('b'));
}

#[test]
fn clear_empties_buffer() {
    let mut b = filled("abc");
    b.clear();
    assert_eq!(b.contents(), "");
    assert_eq!(b.len(), 0);
    assert_eq!(b.cursor(), 0);
}

#[test]
fn prefix_is_text_before_index() {
    let b = filled("hello world");
    assert_eq!(b.prefix(0), "");
    assert_eq!(b.prefix(5), "hello");
    assert_eq!(b.prefix(11), "hello world");
}

#[test]
fn buffer_errors_map_one_to_one() {
    assert_eq!(
        LineError::from_buffer(Error::InvalidRelativeLocation(-4)),
        LineError::InvalidRelativeLocation(-4)
    );
    assert_eq!(
        LineError::from_buffer(Error::InvalidAbsoluteLocation(9)),
        LineError::InvalidAbsoluteLocation(9)
    );
    assert_eq!(
        LineError::from_buffer(Error::DeletingTooMuch),
        LineError::DeletingTooMuch
    );
}
