use crossterm::event::{Event, KeyCode, KeyEvent, KeyModifiers};
use tui_textarea::keys::key_from_code;
use tui_textarea::{Input, Key, RowView, TextArea};

fn lines(t: &TextArea) -> Vec<String> {
    t.lines()
}

fn key(k: Key) -> Input {
    Input { key: k, ctrl: false }
}

fn ctrl(c: char) -> Input {
    Input { key: Key::Char(c), ctrl: true }
}

fn typed(s: &str) -> TextArea<'static> {
    let mut t = TextArea::default();
    for c in s.chars() {
        t.input(key(Key::Char(c)));
    }
    t
}

#[test]
fn fresh_buffer_has_one_empty_line() {
    let t = TextArea::default();
    assert_eq!(lines(&t), vec![String::new()]);
    assert_eq!(t.cursor(), (0, 0));
}

#[test]
fn typing_two_characters() {
    let t = typed("ab");
    assert_eq!(lines(&t), vec!["ab".to_string()]);
    assert_eq!(t.cursor(), (0, 2));
}

#[test]
fn newline_splits_row_at_cursor() {
    let mut t = typed("ab");
    t.cursor_back();
    assert_eq!(t.cursor(), (0, 1));
    t.insert_newline();
    assert_eq!(lines(&t), vec!["a".to_string(), "b".to_string()]);
    assert_eq!(t.cursor(), (1, 0));
}

#[test]
fn delete_at_row_start_joins_rows() {
    let mut t = typed("a");
    t.insert_newline();
    t.insert_char('b');
    t.cursor_start();
    assert_eq!(lines(&t), vec!["a".to_string(), "b".to_string()]);
    assert_eq!(t.cursor(), (1, 0));
    t.delete_char();
    assert_eq!(lines(&t), vec!["ab".to_string()]);
    assert_eq!(t.cursor(), (0, 1));
}

#[test]
fn ctrl_e_and_ctrl_a_move_to_row_ends() {
    let mut t = typed("abc");
    t.cursor_start();
    assert_eq!(t.cursor(), (0, 0));
    t.input(ctrl('e'));
    assert_eq!(t.cursor(), (0, 3));
    t.input(ctrl('a'));
    assert_eq!(t.cursor(), (0, 0));
}

#[test]
fn ctrl_e_lands_on_last_character_slot() {
    let mut t = typed("ab");
    t.cursor_start();
    t.input(ctrl('e'));
    assert_eq!(t.cursor(), (0, 2));
    assert_eq!(lines(&t), vec!["ab".to_string()]);
}

#[test]
fn delete_on_empty_buffer_does_nothing() {
    let mut t = TextArea::default();
    t.delete_char();
    assert_eq!(lines(&t), vec![String::new()]);
    assert_eq!(t.cursor(), (0, 0));
    t.input(key(Key::Backspace));
    assert_eq!(lines(&t), vec![String::new()]);
    assert_eq!(t.cursor(), (0, 0));
}

#[test]
fn newline_then_delete_restores_buffer() {
    let mut t = typed("ab");
    assert_eq!(t.cursor(), (0, 2));
    t.insert_newline();
    assert_eq!(lines(&t), vec!["ab".to_string(), String::new()]);
    t.delete_char();
    assert_eq!(lines(&t), vec!["ab".to_string()]);
    assert_eq!(t.cursor(), (0, 2));
}

#[test]
fn newline_then_delete_in_middle_restores_buffer() {
    let mut t = typed("xyz");
    t.cursor_back();
    t.cursor_back();
    t.insert_newline();
    t.delete_char();
    assert_eq!(lines(&t), vec!["xyz".to_string()]);
    assert_eq!(t.cursor(), (0, 1));
}

#[test]
fn wide_character_takes_one_column() {
    let mut t = typed("a");
    t.insert_char('あ');
    assert_eq!(t.cursor(), (0, 2));
    t.insert_char('😀');
    assert_eq!(t.cursor(), (0, 3));
    assert_eq!(lines(&t), vec!["aあ😀".to_string()]);
    t.cursor_back();
    assert_eq!(t.cursor(), (0, 2));
    t.cursor_back();
    assert_eq!(t.cursor(), (0, 1));
    t.cursor_forward();
    assert_eq!(t.cursor(), (0, 2));
    t.delete_char();
    assert_eq!(lines(&t), vec!["a😀".to_string()]);
    assert_eq!(t.cursor(), (0, 1));
}

#[test]
fn lines_leave_out_the_sentinel() {
    let mut t = typed("a b ");
    assert_eq!(lines(&t), vec!["a b ".to_string()]);
    t.insert_newline();
    assert_eq!(lines(&t), vec!["a b ".to_string(), String::new()]);
}

#[test]
fn insert_str_advances_by_characters() {
    let mut t = typed("ad");
    t.cursor_back();
    t.insert_str("bäc");
    assert_eq!(lines(&t), vec!["abäcd".to_string()]);
    assert_eq!(t.cursor(), (0, 4));
}

#[test]
fn tab_fills_to_next_stop() {
    let mut t = TextArea::default();
    t.insert_tab();
    assert_eq!(lines(&t), vec!["    ".to_string()]);
    assert_eq!(t.cursor(), (0, 4));
    let mut u = typed("a");
    u.input(key(Key::Tab));
    assert_eq!(lines(&u), vec!["a   ".to_string()]);
    assert_eq!(u.cursor(), (0, 4));
}

#[test]
fn tab_width_follows_configuration() {
    let mut t = typed("abc");
    t.tab("  ");
    t.insert_tab();
    assert_eq!(lines(&t), vec!["abc ".to_string()]);
    assert_eq!(t.cursor(), (0, 4));
    t.tab("");
    t.insert_tab();
    assert_eq!(lines(&t), vec!["abc ".to_string()]);
    assert_eq!(t.cursor(), (0, 4));
}

#[test]
fn forward_and_back_cross_rows() {
    let mut t = typed("ab");
    t.insert_newline();
    t.insert_char('c');
    t.cursor_start();
    t.cursor_back();
    assert_eq!(t.cursor(), (0, 2));
    t.cursor_forward();
    assert_eq!(t.cursor(), (1, 0));
    t.cursor_forward();
    assert_eq!(t.cursor(), (1, 1));
    t.cursor_forward();
    assert_eq!(t.cursor(), (1, 1));
    let mut u = TextArea::default();
    u.cursor_back();
    assert_eq!(u.cursor(), (0, 0));
}

#[test]
fn up_and_down_clamp_the_column() {
    let mut t = typed("a");
    t.insert_newline();
    t.insert_str("long");
    assert_eq!(t.cursor(), (1, 4));
    t.cursor_up();
    assert_eq!(t.cursor(), (0, 1));
    t.cursor_down();
    assert_eq!(t.cursor(), (1, 1));
    t.cursor_down();
    assert_eq!(t.cursor(), (1, 1));
    t.cursor_up();
    t.cursor_up();
    assert_eq!(t.cursor(), (0, 1));
}

#[test]
fn delete_inside_row() {
    let mut t = typed("abc");
    t.cursor_back();
    t.delete_char();
    assert_eq!(lines(&t), vec!["ac".to_string()]);
    assert_eq!(t.cursor(), (0, 1));
}

#[test]
fn plain_keys_dispatch() {
    let mut t = TextArea::default();
    t.input(key(Key::Char('h')));
    assert_eq!(lines(&t), vec!["h".to_string()]);
    t.input(key(Key::Enter));
    assert_eq!(t.cursor(), (1, 0));
    t.input(key(Key::Up));
    assert_eq!(t.cursor(), (0, 0));
    t.input(key(Key::Right));
    assert_eq!(t.cursor(), (0, 1));
    t.input(key(Key::Left));
    assert_eq!(t.cursor(), (0, 0));
    t.input(key(Key::End));
    assert_eq!(t.cursor(), (0, 1));
    t.input(key(Key::Home));
    assert_eq!(t.cursor(), (0, 0));
    t.input(key(Key::Down));
    assert_eq!(t.cursor(), (1, 0));
    t.input(key(Key::Delete));
    t.input(key(Key::Null));
    assert_eq!(lines(&t), vec!["h".to_string(), String::new()]);
    assert_eq!(t.cursor(), (1, 0));
}

#[test]
fn control_keys_dispatch() {
    let mut t = typed("xy");
    t.input(ctrl('h'));
    assert_eq!(lines(&t), vec!["x".to_string()]);
    t.input(ctrl('m'));
    assert_eq!(lines(&t), vec!["x".to_string(), String::new()]);
    t.input(ctrl('p'));
    assert_eq!(t.cursor(), (0, 0));
    t.input(ctrl('f'));
    assert_eq!(t.cursor(), (0, 1));
    t.input(ctrl('n'));
    assert_eq!(t.cursor(), (1, 0));
    t.input(ctrl('b'));
    assert_eq!(t.cursor(), (0, 1));
    t.input(ctrl('z'));
    t.input(Input { key: Key::Enter, ctrl: true });
    assert_eq!(lines(&t), vec!["x".to_string(), String::new()]);
    assert_eq!(t.cursor(), (0, 1));
}

#[test]
fn default_input_is_null() {
    let i = Input::default();
    assert_eq!(i, Input { key: Key::Null, ctrl: false });
}

#[test]
fn key_events_are_normalised() {
    let e = KeyEvent::new(KeyCode::Char('e'), KeyModifiers::CONTROL);
    assert_eq!(Input::from(e), Input { key: Key::Char('e'), ctrl: true });
    let e = KeyEvent::new(KeyCode::Backspace, KeyModifiers::NONE);
    assert_eq!(Input::from(e), Input { key: Key::Backspace, ctrl: false });
    let e = KeyEvent::new(KeyCode::Char('x'), KeyModifiers::SHIFT | KeyModifiers::CONTROL);
    assert_eq!(Input::from_key_event(e), Input { key: Key::Char('x'), ctrl: true });
    let e = KeyEvent::new(KeyCode::F(3), KeyModifiers::NONE);
    assert_eq!(Input::from(e), Input { key: Key::Null, ctrl: false });
    assert_eq!(key_from_code(KeyCode::Esc), Key::Null);
    assert_eq!(key_from_code(KeyCode::PageUp), Key::Null);
    assert_eq!(key_from_code(KeyCode::Home), Key::Home);
    assert_eq!(key_from_code(KeyCode::Delete), Key::Delete);
}

#[test]
fn non_key_events_are_null() {
    assert_eq!(Input::from(Event::Resize(10, 20)), Input::default());
    assert_eq!(Input::from(Event::FocusGained), Input::default());
    let e = Event::Key(KeyEvent::new(KeyCode::Tab, KeyModifiers::NONE));
    assert_eq!(Input::from_event(e), Input { key: Key::Tab, ctrl: false });
}

#[test]
fn typing_through_terminal_events() {
    let mut t = TextArea::default();
    for c in ['h', 'i'] {
        t.input(Input::from(KeyEvent::new(KeyCode::Char(c), KeyModifiers::NONE)));
    }
    t.input(Input::from(KeyEvent::new(KeyCode::Char('a'), KeyModifiers::CONTROL)));
    assert_eq!(lines(&t), vec!["hi".to_string()]);
    assert_eq!(t.cursor(), (0, 0));
}

#[test]
fn cursor_row_is_split_around_the_cursor() {
    let mut t = typed("ab");
    t.insert_newline();
    t.insert_str("cd");
    t.cursor_back();
    match t.row_view(1) {
        RowView::Cursor { before, under, after } => {
            assert_eq!(before, "c");
            assert_eq!(under, 'd');
            assert_eq!(after, " ");
        }
        RowView::Plain(_) => panic!("row under the cursor drawn plain"),
    }
    match t.row_view(0) {
        RowView::Plain(text) => assert_eq!(text, "ab "),
        RowView::Cursor { .. } => panic!("row without the cursor highlighted"),
    }
    t.cursor_end();
    match t.row_view(1) {
        RowView::Cursor { before, under, after } => {
            assert_eq!(before, "cd");
            assert_eq!(under, ' ');
            assert_eq!(after, "");
        }
        RowView::Plain(_) => panic!("row under the cursor drawn plain"),
    }
}

#[test]
fn widget_is_built_with_style_and_frame() {
    let mut t = typed("ab");
    t.style(tui::style::Style::default().fg(tui::style::Color::Red));
    t.block(tui::widgets::Block::default().title("edit"));
    let _ = t.widget();
    t.remove_block();
    let _ = t.widget();
    assert_eq!(lines(&t), vec!["ab".to_string()]);
}
