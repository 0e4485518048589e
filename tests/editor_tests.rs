use termedit::editor::{BufferError, Editor, Motion};
use termedit::event::{handle_event, Event};
use termedit::keyboard::{handle_input, Flow, Key, KeyPress, Modifiers};

fn numbered(n: usize) -> String {
    let mut s = String::new();
    for i in 0..n {
        s.push_str(&format!("line {}", i));
        if i + 1 < n {
            s.push('\n');
        }
    }
    s
}

fn loaded(w: u16, h: u16, text: &str) -> Editor {
    let mut e = Editor::new(w, h);
    e.open_file("notes.txt".to_string(), text);
    e
}

fn press(code: Key) -> KeyPress {
    KeyPress { code, modifiers: Modifiers::Plain }
}

#[test]
fn new_editor_starts_at_origin() {
    let mut e = Editor::new(80, 24);
    assert_eq!(e.get_size(), (80, 24));
    assert_eq!(e.get_cursor_pos(), (0, 0));
    assert_eq!(e.get_rowoff(), 0);
    assert_eq!(e.line_count(), 0);
    assert_eq!(e.draw_bottom_bar().len(), 80);
    assert!(e.draw_bottom_bar().starts_with("*None*"));
}

#[test]
fn open_editor_adds_default_line() {
    let mut e = Editor::new(80, 24);
    e.open_editor();
    assert_eq!(e.line_count(), 1);
    assert_eq!(e.get_line(0), Ok("Hello World".to_string()));
}

#[test]
fn append_row_adds_line_at_end() {
    let mut e = Editor::new(80, 24);
    e.append_row("first".to_string());
    e.append_row("second".to_string());
    assert_eq!(e.line_count(), 2);
    assert_eq!(e.get_line(0), Ok("first".to_string()));
    assert_eq!(e.get_line(1), Ok("second".to_string()));
}

#[test]
fn get_line_past_end_is_out_of_range() {
    let e = loaded(80, 24, "a\nb");
    assert_eq!(e.get_line(2), Err(BufferError::OutOfRange));
    assert_eq!(e.get_line(usize::MAX), Err(BufferError::OutOfRange));
}

#[test]
fn load_keeps_trailing_empty_line() {
    let e = loaded(80, 24, "a\nb\nc\n");
    assert_eq!(e.line_count(), 4);
    assert_eq!(e.get_line(2), Ok("c".to_string()));
    assert_eq!(e.get_line(3), Ok(String::new()));
}

#[test]
fn load_without_final_line_feed() {
    let e = loaded(80, 24, "a\nb\nc");
    assert_eq!(e.line_count(), 3);
    assert_eq!(e.get_line(0), Ok("a".to_string()));
    assert_eq!(e.get_line(1), Ok("b".to_string()));
    assert_eq!(e.get_line(2), Ok("c".to_string()));
}

#[test]
fn load_keeps_empty_lines_between() {
    let e = loaded(80, 24, "\n\nx");
    assert_eq!(e.line_count(), 3);
    assert_eq!(e.get_line(0), Ok(String::new()));
    assert_eq!(e.get_line(2), Ok("x".to_string()));
}

#[test]
fn empty_file_has_one_sentinel_line() {
    let mut e = loaded(80, 24, "");
    assert_eq!(e.line_count(), 1);
    assert_eq!(e.get_line(0), Ok(String::new()));
    assert!(e.holds_only_sentinel());
    e.cursor_move_down();
    assert_eq!(e.get_cursor_pos(), (0, 0));
    e.cursor_move_right();
    assert_eq!(e.get_cursor_pos(), (0, 0));
    e.page_down();
    assert_eq!(e.get_cursor_pos(), (0, 0));
    assert_eq!(handle_input(press(Key::Down), &mut e), Flow::Continue);
    assert_eq!(e.get_cursor_pos(), (0, 0));
}

#[test]
fn one_line_file_lets_cursor_past_it() {
    let mut e = loaded(80, 24, "a");
    assert!(!e.holds_only_sentinel());
    e.cursor_move_down();
    e.cursor_move_right();
    assert_eq!(e.get_cursor_pos(), (1, 1));
}

#[test]
fn appended_text_ends_sentinel() {
    let mut e = loaded(80, 24, "");
    e.append_row("b".to_string());
    assert!(!e.holds_only_sentinel());
    e.cursor_move_down();
    assert_eq!(e.get_cursor_pos(), (0, 1));
}

#[test]
fn move_down_stops_past_last_line() {
    let mut e = loaded(80, 24, "a\nb\nc");
    for _ in 0..10 {
        e.cursor_move_down();
        assert!(e.get_cursor_pos().1 as usize <= e.line_count());
    }
    assert_eq!(e.get_cursor_pos(), (0, 3));
}

#[test]
fn up_and_left_stay_at_origin() {
    let mut e = loaded(80, 24, "a\nb\nc");
    for i in 0..6 {
        if i % 2 == 0 {
            e.cursor_move_up();
        } else {
            e.cursor_move_left();
        }
        assert_eq!(e.get_cursor_pos(), (0, 0));
    }
}

#[test]
fn move_right_stops_at_width() {
    let mut e = loaded(3, 24, "abcdef");
    for _ in 0..5 {
        e.cursor_move_right();
    }
    assert_eq!(e.get_cursor_pos(), (3, 0));
    e.cursor_move_left();
    assert_eq!(e.get_cursor_pos(), (2, 0));
}

#[test]
fn twenty_three_moves_keep_window_then_it_scrolls() {
    let mut e = loaded(80, 24, &numbered(100));
    assert_eq!(e.line_count(), 100);
    for _ in 0..23 {
        e.cursor_move_down();
    }
    assert_eq!(e.get_rowoff(), 0);
    e.cursor_move_down();
    e.refresh();
    assert_eq!(e.get_rowoff(), 1);
}

#[test]
fn reconcile_each_frame_scrolls_one_row() {
    let mut e = loaded(80, 24, &numbered(100));
    for _ in 0..22 {
        e.cursor_move_down();
        e.refresh();
        assert_eq!(e.get_rowoff(), 0);
    }
    e.cursor_move_down();
    let f = e.refresh();
    assert_eq!(e.get_rowoff(), 1);
    assert_eq!(f.cursor, (0, 22));
}

#[test]
fn reconcile_twice_keeps_offset() {
    let mut e = loaded(80, 24, &numbered(100));
    for _ in 0..30 {
        e.cursor_move_down();
        e.scroll();
        let off = e.get_rowoff();
        e.scroll();
        assert_eq!(e.get_rowoff(), off);
    }
}

#[test]
fn scroll_snaps_up_to_cursor() {
    let mut e = loaded(80, 10, &numbered(100));
    for _ in 0..40 {
        e.cursor_move_down();
        e.scroll();
    }
    assert_eq!(e.get_rowoff(), 32);
    e.page_up();
    assert_eq!(e.get_cursor_pos(), (0, 30));
    e.scroll();
    assert_eq!(e.get_rowoff(), 30);
}

#[test]
fn scroll_lags_behind_page_down() {
    let mut e = loaded(80, 10, &numbered(100));
    e.page_down();
    assert_eq!(e.get_cursor_pos(), (0, 9));
    e.page_down();
    assert_eq!(e.get_cursor_pos(), (0, 18));
    e.scroll();
    assert_eq!(e.get_rowoff(), 1);
    e.scroll();
    assert_eq!(e.get_rowoff(), 2);
}

#[test]
fn scroll_never_passes_last_line() {
    let mut e = loaded(80, 3, "a\nb");
    for _ in 0..5 {
        e.cursor_move_down();
        e.scroll();
    }
    assert_eq!(e.get_cursor_pos(), (0, 2));
    assert_eq!(e.get_rowoff(), 1);
}

#[test]
fn page_up_from_row_fifty() {
    let mut e = loaded(80, 24, &numbered(100));
    for _ in 0..50 {
        e.cursor_move_down();
    }
    e.cursor_move_right();
    assert_eq!(e.get_cursor_pos(), (1, 50));
    e.page_up();
    assert_eq!(e.get_cursor_pos(), (1, 26));
    e.page_up();
    assert_eq!(e.get_cursor_pos(), (1, 2));
    e.page_up();
    assert_eq!(e.get_cursor_pos(), (1, 0));
}

#[test]
fn page_down_stops_past_last_line() {
    let mut e = loaded(80, 24, &numbered(30));
    e.page_down();
    assert_eq!(e.get_cursor_pos(), (0, 23));
    e.page_down();
    assert_eq!(e.get_cursor_pos(), (0, 30));
}

#[test]
fn apply_motion_matches_methods() {
    let mut e = loaded(80, 24, &numbered(30));
    e.apply_motion(Motion::Down);
    e.apply_motion(Motion::Right);
    e.apply_motion(Motion::PageDown);
    assert_eq!(e.get_cursor_pos(), (1, 24));
    e.apply_motion(Motion::Up);
    e.apply_motion(Motion::Left);
    e.apply_motion(Motion::PageUp);
    assert_eq!(e.get_cursor_pos(), (0, 0));
}

#[test]
fn draw_rows_clips_and_fills() {
    let e = loaded(4, 5, "abcdefg\nxy");
    let rows = e.draw_rows();
    assert_eq!(rows, vec!["abcd".to_string(), "xy".to_string(), "~".to_string(), "~".to_string()]);
}

#[test]
fn draw_rows_with_no_content_rows() {
    let e = loaded(4, 1, "abc");
    assert!(e.draw_rows().is_empty());
    let e = loaded(4, 0, "abc");
    assert!(e.draw_rows().is_empty());
}

#[test]
fn bottom_bar_pads_and_clips_name() {
    let mut e = Editor::new(10, 5);
    e.open_file("abc".to_string(), "x");
    assert_eq!(e.draw_bottom_bar(), "abc       ");
    let mut e = Editor::new(4, 5);
    e.open_file("long_name.txt".to_string(), "x");
    assert_eq!(e.draw_bottom_bar(), "long");
}

#[test]
fn refresh_gives_frame() {
    let mut e = loaded(5, 3, "one\ntwo\nthree");
    e.cursor_move_down();
    e.cursor_move_down();
    e.cursor_move_right();
    let f = e.refresh();
    assert_eq!(e.get_rowoff(), 1);
    assert_eq!(f.rows, vec!["two".to_string(), "three".to_string()]);
    assert_eq!(f.status, "notes");
    assert_eq!(f.cursor, (1, 1));
}

#[test]
fn keys_move_cursor() {
    let mut e = loaded(80, 24, &numbered(30));
    assert_eq!(handle_input(press(Key::Down), &mut e), Flow::Continue);
    assert_eq!(handle_input(press(Key::Right), &mut e), Flow::Continue);
    assert_eq!(e.get_cursor_pos(), (1, 1));
    handle_input(press(Key::PageDown), &mut e);
    assert_eq!(e.get_cursor_pos(), (1, 24));
    handle_input(press(Key::PageUp), &mut e);
    handle_input(press(Key::Left), &mut e);
    handle_input(press(Key::Up), &mut e);
    assert_eq!(e.get_cursor_pos(), (0, 0));
}

#[test]
fn other_keys_change_nothing() {
    let mut e = loaded(80, 24, &numbered(30));
    assert_eq!(handle_input(press(Key::Char('x')), &mut e), Flow::Continue);
    assert_eq!(handle_input(press(Key::Enter), &mut e), Flow::Continue);
    assert_eq!(handle_input(press(Key::Other), &mut e), Flow::Continue);
    let shifted = KeyPress { code: Key::Down, modifiers: Modifiers::Other };
    assert_eq!(handle_input(shifted, &mut e), Flow::Continue);
    let ctrl_down = KeyPress { code: Key::Down, modifiers: Modifiers::Control };
    assert_eq!(handle_input(ctrl_down, &mut e), Flow::Continue);
    assert_eq!(e.get_cursor_pos(), (0, 0));
    assert_eq!(e.get_line(0), Ok("line 0".to_string()));
}

#[test]
fn control_q_quits() {
    let mut e = loaded(80, 24, "a");
    let q = KeyPress { code: Key::Char('q'), modifiers: Modifiers::Control };
    assert_eq!(handle_input(q, &mut e), Flow::Quit);
    assert_eq!(handle_input(press(Key::Char('q')), &mut e), Flow::Continue);
}

#[test]
fn events_dispatch() {
    let mut e = loaded(80, 24, "a\nb");
    assert_eq!(handle_event(&mut e, Event::Resize(40, 10)), Flow::Continue);
    assert_eq!(e.get_size(), (40, 10));
    assert_eq!(handle_event(&mut e, Event::Key(press(Key::Down))), Flow::Continue);
    assert_eq!(e.get_cursor_pos(), (0, 1));
    assert_eq!(handle_event(&mut e, Event::Other), Flow::Continue);
    let q = KeyPress { code: Key::Char('q'), modifiers: Modifiers::Control };
    assert_eq!(handle_event(&mut e, Event::Key(q)), Flow::Quit);
}

#[test]
fn update_size_changes_width_bound() {
    let mut e = loaded(2, 24, "abc");
    e.upadate_size(3, 24);
    for _ in 0..5 {
        e.cursor_move_right();
    }
    assert_eq!(e.get_cursor_pos(), (3, 0));
}
