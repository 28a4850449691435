use editor::buffer::{BufferData, History};
use editor::location::{
    ColumnIndex, LineIndex, Movement, MovementError, Position, Selection,
};
use ropey::Rope;

fn at(line: usize, column: usize) -> Position {
    Position { line: LineIndex(line), column: ColumnIndex(column) }
}

fn text() -> Rope {
    Rope::from_str("ab\ncd\n")
}

fn buffer(content: &str) -> BufferData {
    BufferData {
        path: None,
        name: String::from("test"),
        content: Rope::from_str(content),
        history: History::new(),
    }
}

#[test]
fn indices_convert_between_bases() {
    assert_eq!(LineIndex::from_zero_based(0), LineIndex(1));
    assert_eq!(LineIndex::from_one_based(4).zero_based(), 3);
    assert_eq!(LineIndex::from_zero_based(6).one_based(), 7);
    assert_eq!(ColumnIndex::from_zero_based(2), ColumnIndex(3));
    assert_eq!(ColumnIndex::from_one_based(9).zero_based(), 8);
    assert!(LineIndex(1).is_first());
    assert!(!LineIndex(2).is_first());
    assert!(ColumnIndex(1).is_first());
    assert!(!ColumnIndex(5).is_first());
}

#[test]
fn file_start_is_line_one_column_one() {
    assert_eq!(Position::file_start(), at(1, 1));
}

#[test]
fn lines_are_measured_with_their_line_feed() {
    let rope = text();
    assert_eq!(LineIndex(1).len_of(&rope), 3);
    assert_eq!(LineIndex(2).len_of(&rope), 3);
    assert_eq!(LineIndex(3).len_of(&rope), 0);
    assert_eq!(LineIndex(9).len_of(&rope), 0);
    assert_eq!(LineIndex(1).char_of(&rope), 0);
    assert_eq!(LineIndex(2).char_of(&rope), 3);
    assert_eq!(LineIndex(3).char_of(&rope), 6);
    assert_eq!(LineIndex(8).char_of(&rope), 6);
    assert_eq!(LineIndex(2).range_of(&rope), 3..6);
    assert_eq!(LineIndex(2).slice_of(&rope), "cd\n");
    assert_eq!(LineIndex(3).slice_of(&rope), "");
}

#[test]
fn only_a_line_feed_ends_a_line() {
    let rope = Rope::from_str("a\rb\u{2028}c\n");
    assert_eq!(LineIndex(1).len_of(&rope), 6);
    assert!(LineIndex(2).is_last(&rope));
    let rope = Rope::from_str("a\r\nb");
    assert_eq!(LineIndex(1).len_of(&rope), 3);
    assert_eq!(LineIndex(2).char_of(&rope), 3);
}

#[test]
fn last_and_empty_lines() {
    let rope = text();
    assert!(LineIndex(3).is_last(&rope));
    assert!(!LineIndex(2).is_last(&rope));
    assert!(LineIndex(3).is_empty(&rope));
    assert!(!LineIndex(1).is_empty(&rope));
    assert!(LineIndex(1).is_last(&Rope::new()));
    assert!(LineIndex(1).is_empty(&Rope::new()));
}

#[test]
fn validity_is_column_on_line() {
    let rope = text();
    assert!(at(1, 1).is_valid(&rope));
    assert!(at(1, 3).is_valid(&rope));
    assert!(!at(1, 4).is_valid(&rope));
    assert!(!at(3, 1).is_valid(&rope));
    assert!(!at(4, 1).is_valid(&rope));
    assert!(!at(1, 1).is_valid(&Rope::new()));
    assert!(at(1, 4).is_full_line(&rope));
    assert!(!at(1, 3).is_full_line(&rope));
}

#[test]
fn char_of_adds_line_start_and_column() {
    let rope = text();
    assert_eq!(at(1, 1).char_of(&rope), 0);
    assert_eq!(at(2, 2).char_of(&rope), 4);
    assert_eq!(at(2, 3).char_of(&rope), 5);
}

#[test]
fn validate_snaps_to_line_end() {
    let rope = text();
    let mut p = at(1, 9);
    p.validate(&rope);
    assert_eq!(p, at(1, 3));
    let mut p = at(2, 2);
    p.validate(&rope);
    assert_eq!(p, at(2, 2));
}

#[test]
fn validate_walks_up_from_an_empty_line() {
    let rope = text();
    let mut p = at(3, 1);
    p.validate(&rope);
    assert_eq!(p, at(2, 3));
    let mut p = at(7, 4);
    p.validate(&rope);
    assert_eq!(p, at(2, 3));
    let rope = Rope::from_str("ab\ncd");
    let mut p = at(9, 1);
    p.validate(&rope);
    assert_eq!(p, at(2, 2));
}

#[test]
fn validate_fix_repairs_an_empty_text() {
    let mut b = buffer("");
    let mut p = at(3, 7);
    p.validate_fix(&mut b);
    assert_eq!(p, at(1, 1));
    assert_eq!(b.content.to_string(), "\n");
    assert!(b.history.undo(&mut b.content).is_ok());
    assert_eq!(b.content.to_string(), "");
}

#[test]
fn validate_fix_leaves_a_text_that_is_not_empty() {
    let mut b = buffer("ab\n");
    let mut p = at(1, 8);
    p.validate_fix(&mut b);
    assert_eq!(p, at(1, 3));
    assert_eq!(b.content.to_string(), "ab\n");
    assert!(b.history.undo(&mut b.content).is_err());
}

#[test]
fn left_steps_and_wraps() {
    let rope = text();
    let mut p = at(1, 3);
    assert_eq!(p.move_to(&rope, Movement::Left(1)), Ok(()));
    assert_eq!(p, at(1, 2));
    let mut p = at(2, 1);
    assert_eq!(p.move_to(&rope, Movement::Left(1)), Ok(()));
    assert_eq!(p, at(1, 3));
    let mut p = at(2, 2);
    assert_eq!(p.move_to(&rope, Movement::Left(4)), Ok(()));
    assert_eq!(p, at(1, 1));
    let mut p = at(2, 2);
    assert_eq!(p.move_to(&rope, Movement::Left(0)), Ok(()));
    assert_eq!(p, at(2, 2));
}

#[test]
fn left_fails_at_the_start_and_keeps_the_steps_taken() {
    let rope = text();
    let mut p = at(1, 1);
    assert_eq!(p.move_to(&rope, Movement::Left(1)), Err(MovementError::NoPrevLine));
    assert_eq!(p, at(1, 1));
    let mut p = at(1, 3);
    assert_eq!(p.move_to(&rope, Movement::Left(5)), Err(MovementError::NoPrevLine));
    assert_eq!(p, at(1, 1));
}

#[test]
fn left_validates_before_it_steps() {
    let rope = text();
    let mut p = at(1, 40);
    assert_eq!(p.move_to(&rope, Movement::Left(1)), Ok(()));
    assert_eq!(p, at(1, 2));
    let mut p = at(3, 1);
    assert_eq!(p.move_to(&rope, Movement::Left(1)), Ok(()));
    assert_eq!(p, at(2, 2));
}

#[test]
fn right_steps_and_wraps() {
    let rope = text();
    let mut p = at(1, 1);
    assert_eq!(p.move_to(&rope, Movement::Right(1)), Ok(()));
    assert_eq!(p, at(1, 2));
    assert_eq!(p.move_to(&rope, Movement::Right(1)), Ok(()));
    assert_eq!(p, at(1, 3));
    assert_eq!(p.move_to(&rope, Movement::Right(1)), Ok(()));
    assert_eq!(p, at(2, 1));
    let mut p = at(1, 1);
    assert_eq!(p.move_to(&rope, Movement::Right(5)), Ok(()));
    assert_eq!(p, at(2, 3));
}

#[test]
fn right_fails_at_the_end_and_keeps_the_steps_taken() {
    let rope = text();
    let mut p = at(2, 3);
    assert_eq!(p.move_to(&rope, Movement::Right(1)), Err(MovementError::NoNextLine));
    assert_eq!(p, at(2, 3));
    let mut p = at(2, 2);
    assert_eq!(p.move_to(&rope, Movement::Right(2)), Err(MovementError::NoNextLine));
    assert_eq!(p, at(2, 3));
    let rope = Rope::from_str("ab\ncd");
    let mut p = at(2, 2);
    assert_eq!(p.move_to(&rope, Movement::Right(1)), Err(MovementError::NoNextLine));
    assert_eq!(p, at(2, 2));
}

#[test]
fn steps_fail_in_the_empty_text() {
    let rope = Rope::new();
    let mut p = at(1, 1);
    assert_eq!(p.move_to(&rope, Movement::Left(1)), Err(MovementError::SelectionEmpty));
    assert_eq!(p.move_to(&rope, Movement::Right(3)), Err(MovementError::SelectionEmpty));
    assert_eq!(p, at(1, 1));
    assert_eq!(p.move_to(&rope, Movement::Right(0)), Ok(()));
    assert_eq!(p.move_to(&rope, Movement::Down(1)), Err(MovementError::NoNextLine));
    assert_eq!(p.move_to(&rope, Movement::FileEnd), Ok(()));
    assert_eq!(p, at(1, 1));
}

#[test]
fn right_then_left_returns() {
    let rope = Rope::from_str("ab\n\ncde\nf\n");
    for line in 1..=4usize {
        for column in 1..=4usize {
            let start = at(line, column);
            if !start.is_valid(&rope) {
                continue;
            }
            for n in 0..10usize {
                let mut p = start;
                if p.move_to(&rope, Movement::Right(n)).is_ok() {
                    assert!(p.is_valid(&rope));
                    assert_eq!(p.move_to(&rope, Movement::Left(n)), Ok(()));
                    assert_eq!(p, start);
                }
            }
        }
    }
}

#[test]
fn up_is_clamped_and_keeps_the_column() {
    let rope = Rope::from_str("a\nbcd\nef\n");
    let mut p = at(3, 2);
    assert_eq!(p.move_to(&rope, Movement::Up(1)), Ok(()));
    assert_eq!(p, at(2, 2));
    let mut p = at(2, 3);
    assert_eq!(p.move_to(&rope, Movement::Up(7)), Ok(()));
    assert_eq!(p, at(1, 3));
    assert!(!p.is_valid(&rope));
    let mut p = at(1, 1);
    assert_eq!(p.move_to(&rope, Movement::Up(1)), Err(MovementError::NoPrevLine));
    assert_eq!(p, at(1, 1));
    assert_eq!(p.move_to(&rope, Movement::Up(0)), Ok(()));
}

#[test]
fn down_stops_on_the_last_line_with_text() {
    let rope = text();
    let mut p = at(1, 2);
    assert_eq!(p.move_to(&rope, Movement::Down(1)), Ok(()));
    assert_eq!(p, at(2, 2));
    let mut p = at(1, 1);
    assert_eq!(p.move_to(&rope, Movement::Down(10)), Ok(()));
    assert_eq!(p, at(2, 1));
    assert_eq!(p.move_to(&rope, Movement::Down(1)), Err(MovementError::NoNextLine));
    assert_eq!(p, at(2, 1));
    assert_eq!(p.move_to(&rope, Movement::Down(0)), Ok(()));
    let mut p = at(5, 1);
    assert_eq!(p.move_to(&rope, Movement::Down(1)), Err(MovementError::NoNextLine));
    assert_eq!(p, at(5, 1));
    let rope = Rope::from_str("ab\ncd\nef");
    let mut p = at(1, 1);
    assert_eq!(p.move_to(&rope, Movement::Down(usize::MAX)), Ok(()));
    assert_eq!(p, at(3, 1));
}

#[test]
fn line_start_and_line_end() {
    let rope = text();
    let mut p = at(2, 2);
    assert_eq!(p.move_to(&rope, Movement::LineEnd), Ok(()));
    assert_eq!(p, at(2, 3));
    assert_eq!(p.move_to(&rope, Movement::LineStart), Ok(()));
    assert_eq!(p, at(2, 1));
    let mut p = at(3, 4);
    assert_eq!(p.move_to(&rope, Movement::LineEnd), Ok(()));
    assert_eq!(p, at(3, 1));
}

#[test]
fn file_start_and_file_end() {
    let rope = text();
    let mut p = at(2, 3);
    assert_eq!(p.move_to(&rope, Movement::FileStart), Ok(()));
    assert_eq!(p, at(1, 1));
    assert_eq!(p.move_to(&rope, Movement::FileEnd), Ok(()));
    assert_eq!(p, at(2, 1));
    let rope = Rope::from_str("ab\ncd\nef");
    let mut p = at(1, 2);
    assert_eq!(p.move_to(&rope, Movement::FileEnd), Ok(()));
    assert_eq!(p, at(3, 1));
    let rope = Rope::from_str("\n");
    let mut p = at(1, 1);
    assert_eq!(p.move_to(&rope, Movement::FileEnd), Ok(()));
    assert_eq!(p, at(1, 1));
}

#[test]
fn a_movement_that_succeeds_ends_on_a_valid_position() {
    let rope = Rope::from_str("ab\n\ncde\nf\n");
    let movements = [
        Movement::Left(1),
        Movement::Left(3),
        Movement::Right(1),
        Movement::Right(4),
        Movement::LineStart,
        Movement::LineEnd,
        Movement::FileStart,
        Movement::FileEnd,
    ];
    for line in 1..=4usize {
        for column in 1..=4usize {
            let start = at(line, column);
            if !start.is_valid(&rope) {
                continue;
            }
            for movement in movements {
                let mut p = start;
                if p.move_to(&rope, movement).is_ok() {
                    assert!(p.is_valid(&rope));
                }
            }
        }
    }
}

#[test]
fn movement_errors_have_their_words() {
    assert_eq!(MovementError::SelectionEmpty.message(), "selection is empty");
    assert_eq!(MovementError::NoPrevLine.message(), "no previous line");
    assert_eq!(MovementError::NoNextLine.message(), "no next line");
}

#[test]
fn order_puts_the_ends_in_document_order() {
    let mut s = Selection { start: at(2, 1), end: at(1, 2) };
    s.order();
    assert_eq!((s.start, s.end), (at(1, 2), at(2, 1)));
    s.order();
    assert_eq!((s.start, s.end), (at(1, 2), at(2, 1)));
    let s = Selection { start: at(1, 3), end: at(1, 2) }.ordered();
    assert_eq!((s.start, s.end), (at(1, 2), at(1, 3)));
    let twice = s.ordered().ordered();
    assert_eq!((twice.start, twice.end), (s.start, s.end));
    let s = Selection { start: at(1, 2), end: at(1, 2) }.ordered();
    assert_eq!((s.start, s.end), (at(1, 2), at(1, 2)));
}

#[test]
fn flip_swaps_the_ends() {
    let mut s = Selection { start: at(1, 1), end: at(2, 3) };
    s.flip();
    assert_eq!((s.start, s.end), (at(2, 3), at(1, 1)));
    let back = s.flipped();
    assert_eq!((back.start, back.end), (at(1, 1), at(2, 3)));
}

#[test]
fn contains_includes_both_ends() {
    let s = Selection { start: at(2, 2), end: at(1, 2) };
    assert!(s.contains(at(1, 2)));
    assert!(s.contains(at(1, 9)));
    assert!(s.contains(at(2, 1)));
    assert!(s.contains(at(2, 2)));
    assert!(!s.contains(at(1, 1)));
    assert!(!s.contains(at(2, 3)));
    assert!(!s.contains(at(3, 1)));
}

#[test]
fn is_ordered_holds_of_every_selection() {
    assert!(Selection { start: at(1, 1), end: at(2, 3) }.is_ordered());
    assert!(Selection { start: at(2, 3), end: at(1, 1) }.is_ordered());
    assert!(Selection { start: at(1, 1), end: at(1, 1) }.is_ordered());
}

#[test]
fn selection_ranges_include_the_last_character() {
    let rope = text();
    let s = Selection { start: at(2, 1), end: at(1, 2) };
    assert_eq!(s.range_of(&rope), 1..4);
    assert_eq!(s.slice_of(&rope), "b\nc");
    let s = Selection { start: at(1, 1), end: at(1, 1) };
    assert_eq!(s.range_of(&rope), 0..1);
    assert_eq!(s.slice_of(&rope), "a");
}

#[test]
fn valid_returns_a_validated_copy() {
    let rope = text();
    let s = Selection { start: at(1, 7), end: at(3, 1) };
    let v = s.valid(&rope);
    assert_eq!((v.start, v.end), (at(1, 3), at(2, 3)));
    assert_eq!((s.start, s.end), (at(1, 7), at(3, 1)));
    let mut s = s;
    s.validate(&rope);
    assert_eq!((s.start, s.end), (at(1, 3), at(2, 3)));
}

#[test]
fn selection_moves_with_and_without_dragging() {
    let rope = text();
    let mut s = Selection { start: at(1, 1), end: at(1, 2) };
    assert_eq!(s.move_to(&rope, Movement::Right(1), true), Ok(()));
    assert_eq!((s.start, s.end), (at(1, 1), at(1, 3)));
    assert_eq!(s.move_to(&rope, Movement::Right(1), false), Ok(()));
    assert_eq!((s.start, s.end), (at(2, 1), at(2, 1)));
    let mut s = Selection { start: at(1, 2), end: at(1, 1) };
    assert_eq!(s.move_to(&rope, Movement::Left(1), false), Err(MovementError::NoPrevLine));
    assert_eq!((s.start, s.end), (at(1, 2), at(1, 1)));
}

#[test]
fn remove_from_deletes_the_range_and_collapses() {
    let mut b = buffer("ab\ncd\n");
    let mut s = Selection { start: at(2, 1), end: at(1, 2) };
    s.remove_from(&mut b);
    assert_eq!(b.content.to_string(), "ad\n");
    assert_eq!((s.start, s.end), (at(1, 2), at(1, 2)));
    assert!(b.history.undo(&mut b.content).is_ok());
    assert_eq!(b.content.to_string(), "ab\ncd\n");
    assert!(b.history.undo(&mut b.content).is_err());
}

#[test]
fn remove_from_validates_first() {
    let mut b = buffer("ab\ncd\n");
    let mut s = Selection { start: at(3, 1), end: at(3, 1) };
    s.remove_from(&mut b);
    assert_eq!(b.content.to_string(), "ab\ncd");
    assert_eq!((s.start, s.end), (at(2, 2), at(2, 2)));
}

#[test]
fn remove_from_repairs_an_emptied_text() {
    let mut b = buffer("\n");
    let mut s = Selection { start: at(1, 1), end: at(1, 1) };
    s.remove_from(&mut b);
    assert_eq!(b.content.to_string(), "\n");
    assert_eq!((s.start, s.end), (at(1, 1), at(1, 1)));
    assert!(b.history.undo(&mut b.content).is_ok());
    assert_eq!(b.content.to_string(), "");
    assert!(b.history.undo(&mut b.content).is_ok());
    assert_eq!(b.content.to_string(), "\n");
}

#[test]
fn selection_validate_fix_repairs_both_ends() {
    let mut b = buffer("");
    let mut s = Selection { start: at(2, 2), end: at(5, 1) };
    s.validate_fix(&mut b);
    assert_eq!(b.content.to_string(), "\n");
    assert_eq!((s.start, s.end), (at(1, 1), at(1, 1)));
}

#[test]
fn insert_char_goes_through_the_log() {
    let mut b = buffer("ab\ncd\n");
    at(2, 2).insert_char(&mut b, 'x');
    assert_eq!(b.content.to_string(), "ab\ncxd\n");
    at(1, 1).insert_char(&mut b, '\u{e9}');
    assert_eq!(b.content.to_string(), "\u{e9}ab\ncxd\n");
    assert!(b.history.undo(&mut b.content).is_ok());
    assert_eq!(b.content.to_string(), "ab\ncxd\n");
    assert!(b.history.undo(&mut b.content).is_ok());
    assert_eq!(b.content.to_string(), "ab\ncd\n");
}
