use serial_console::{Coordinator, Event, Key, LineEditor};

fn text(e: &LineEditor) -> String {
    e.chars().into_iter().collect()
}

#[test]
fn typing_at_key_by_key_then_enter_sends_the_line() {
    let mut c = Coordinator::new();
    let mut seen = Vec::new();
    for ch in "AT".chars() {
        let r = c.handle(Event::KeyInput(Key::Char(ch)));
        assert_eq!(r.outbound, None);
        assert!(!r.stop);
        seen.push(text(c.editor()));
    }
    assert_eq!(seen, vec!["A".to_string(), "AT".to_string()]);
    let r = c.handle(Event::KeyInput(Key::Char('\n')));
    assert_eq!(r.outbound, Some(Event::Message("AT".to_string())));
    assert!(!r.stop);
    assert_eq!(text(c.editor()), "");
    assert_eq!(c.editor().cursor(), 0);
}

#[test]
fn left_arrow_at_start_stays_at_zero() {
    let mut c = Coordinator::new();
    c.handle(Event::KeyInput(Key::Left));
    assert_eq!(c.editor().cursor(), 0);
    c.handle(Event::KeyInput(Key::Char('x')));
    c.handle(Event::KeyInput(Key::Left));
    c.handle(Event::KeyInput(Key::Left));
    assert_eq!(c.editor().cursor(), 0);
    assert_eq!(text(c.editor()), "x");
}

#[test]
fn right_arrow_stops_at_end() {
    let mut e = LineEditor::new();
    e.insert('a');
    e.move_right();
    assert_eq!(e.cursor(), 1);
    e.move_left();
    e.move_right();
    e.move_right();
    assert_eq!(e.cursor(), 1);
}

#[test]
fn insert_in_the_middle() {
    let mut e = LineEditor::new();
    e.insert('a');
    e.insert('c');
    e.move_left();
    e.insert('b');
    assert_eq!(text(&e), "abc");
    assert_eq!(e.cursor(), 2);
    assert_eq!(e.len(), 3);
}

#[test]
fn backspace_at_start_changes_nothing() {
    let mut e = LineEditor::new();
    e.insert('a');
    e.insert('b');
    e.move_left();
    e.move_left();
    e.delete_before();
    assert_eq!(text(&e), "ab");
    assert_eq!(e.cursor(), 0);
    e.delete_before();
    assert_eq!(text(&e), "ab");
    assert_eq!(e.cursor(), 0);
}

#[test]
fn delete_at_end_changes_nothing() {
    let mut e = LineEditor::new();
    e.insert('a');
    e.insert('b');
    e.delete_at();
    assert_eq!(text(&e), "ab");
    assert_eq!(e.cursor(), 2);
    e.delete_at();
    assert_eq!(text(&e), "ab");
}

#[test]
fn backspace_and_delete_remove_around_cursor() {
    let mut e = LineEditor::new();
    for ch in "abcd".chars() {
        e.insert(ch);
    }
    e.move_left();
    e.move_left();
    e.delete_before();
    assert_eq!(text(&e), "acd");
    assert_eq!(e.cursor(), 1);
    e.delete_at();
    assert_eq!(text(&e), "ad");
    assert_eq!(e.cursor(), 1);
}

#[test]
fn cursor_stays_in_bounds_over_mixed_edits() {
    let mut e = LineEditor::new();
    let ops = [0, 3, 3, 0, 1, 4, 0, 0, 2, 2, 2, 3, 1, 1, 4, 0, 4, 2];
    for (i, op) in ops.iter().enumerate() {
        match op {
            0 => e.insert(char::from(b'a' + (i as u8 % 26))),
            1 => e.delete_before(),
            2 => e.delete_at(),
            3 => e.move_left(),
            _ => e.move_right(),
        }
        assert!(e.cursor() <= e.len());
    }
}

#[test]
fn take_line_empties_and_later_edits_hold_only_new_text() {
    let mut e = LineEditor::new();
    for ch in "old".chars() {
        e.insert(ch);
    }
    e.move_left();
    let line = e.take_line();
    assert_eq!(line, vec!['o', 'l', 'd']);
    assert_eq!(e.len(), 0);
    assert_eq!(e.cursor(), 0);
    e.delete_before();
    e.delete_at();
    e.move_right();
    e.insert('n');
    assert_eq!(text(&e), "n");
}

#[test]
fn cursor_marker_at_end_is_a_blank_cell() {
    let mut c = Coordinator::new();
    assert_eq!(c.input_with_cursor(), "{mod=invert  }");
    c.handle(Event::KeyInput(Key::Char('h')));
    c.handle(Event::KeyInput(Key::Char('i')));
    assert_eq!(c.input_with_cursor(), "hi{mod=invert  }");
}

#[test]
fn cursor_marker_wraps_the_character_under_it() {
    let mut c = Coordinator::new();
    for ch in "abc".chars() {
        c.handle(Event::KeyInput(Key::Char(ch)));
    }
    c.handle(Event::KeyInput(Key::Left));
    c.handle(Event::KeyInput(Key::Left));
    assert_eq!(c.input_with_cursor(), "a{mod=invert b}c");
}
