use fervim::config::Config;
use fervim::editor::{Editor, Mode, Step};
use fervim::key::{Key, KeyPress};

fn open(content: &str) -> Editor {
    Editor::new(Some("notes.txt".to_string()), Ok(content.to_string()), Config::default())
}

fn press(editor: &mut Editor, key: Key) {
    assert_eq!(editor.handle_key_event(KeyPress::plain(key), 24), Step::Continue);
}

fn keys(editor: &mut Editor, text: &str) {
    for c in text.chars() {
        press(editor, Key::Char(c));
    }
}

#[test]
fn left_crosses_to_end_of_previous_line() {
    let mut editor = open("abc\nde");
    keys(&mut editor, "j");
    assert_eq!(editor.cursor(), (0, 1));
    keys(&mut editor, "h");
    assert_eq!(editor.cursor(), (3, 0));
    press(&mut editor, Key::Left);
    assert_eq!(editor.cursor(), (2, 0));
}

#[test]
fn left_at_start_of_buffer_stays() {
    let mut editor = open("abc\nde");
    keys(&mut editor, "h");
    assert_eq!(editor.cursor(), (0, 0));
    press(&mut editor, Key::Left);
    assert_eq!(editor.cursor(), (0, 0));
}

#[test]
fn right_crosses_to_start_of_next_line() {
    let mut editor = open("ab\ncd");
    keys(&mut editor, "ll");
    assert_eq!(editor.cursor(), (2, 0));
    keys(&mut editor, "l");
    assert_eq!(editor.cursor(), (0, 1));
    press(&mut editor, Key::Right);
    assert_eq!(editor.cursor(), (1, 1));
}

#[test]
fn up_and_down_clamp_the_column() {
    let mut editor = open("abcdef\nxy\nlonger line");
    keys(&mut editor, "$");
    assert_eq!(editor.cursor(), (6, 0));
    keys(&mut editor, "j");
    assert_eq!(editor.cursor(), (2, 1));
    keys(&mut editor, "j");
    assert_eq!(editor.cursor(), (2, 2));
    keys(&mut editor, "$");
    assert_eq!(editor.cursor(), (11, 2));
    press(&mut editor, Key::Up);
    assert_eq!(editor.cursor(), (2, 1));
    keys(&mut editor, "k");
    assert_eq!(editor.cursor(), (2, 0));
    keys(&mut editor, "k");
    assert_eq!(editor.cursor(), (2, 0));
}

#[test]
fn down_at_last_line_stays() {
    let mut editor = open("a\nb");
    press(&mut editor, Key::Down);
    press(&mut editor, Key::Down);
    assert_eq!(editor.cursor(), (0, 1));
}

#[test]
fn caret_and_dollar_move_within_the_line() {
    let mut editor = open("hello");
    keys(&mut editor, "$");
    assert_eq!(editor.cursor(), (5, 0));
    keys(&mut editor, "^");
    assert_eq!(editor.cursor(), (0, 0));
}

#[test]
fn capital_g_jumps_to_end_and_ctrl_g_to_start() {
    let mut editor = open("one\ntwo\nthree");
    keys(&mut editor, "G");
    assert_eq!(editor.cursor(), (5, 2));
    assert_eq!(
        editor.handle_key_event(KeyPress { key: Key::Char('g'), ctrl: true }, 24),
        Step::Continue
    );
    assert_eq!(editor.cursor(), (0, 0));
}

#[test]
fn plain_g_does_nothing() {
    let mut editor = open("one\ntwo");
    keys(&mut editor, "Gg");
    assert_eq!(editor.cursor(), (3, 1));
}

#[test]
fn d_is_inert() {
    let mut editor = open("one\ntwo");
    keys(&mut editor, "jdd");
    assert_eq!(editor.lines(), vec!["one".to_string(), "two".to_string()]);
    assert_eq!(editor.cursor(), (0, 1));
    assert!(!editor.is_dirty());
}

#[test]
fn page_down_and_up_move_by_text_area_height() {
    let content: Vec<String> = (0..100).map(|i| format!("line {}", i)).collect();
    let mut editor = open(&content.join("\n"));
    // 24 rows, 2 of them the mode bar: 22 lines of text
    press(&mut editor, Key::PageDown);
    assert_eq!(editor.cursor(), (0, 22));
    assert_eq!(editor.scroll_offset(), 1);
    press(&mut editor, Key::PageDown);
    assert_eq!(editor.cursor(), (0, 44));
    assert_eq!(editor.scroll_offset(), 23);
    press(&mut editor, Key::PageUp);
    assert_eq!(editor.cursor(), (0, 22));
    assert_eq!(editor.scroll_offset(), 22);
    press(&mut editor, Key::PageUp);
    press(&mut editor, Key::PageUp);
    assert_eq!(editor.cursor(), (0, 0));
    assert_eq!(editor.scroll_offset(), 0);
}

#[test]
fn page_down_stops_at_last_line_and_clamps_column() {
    let mut editor = open("a long first line\nb\nc");
    keys(&mut editor, "$");
    press(&mut editor, Key::PageDown);
    assert_eq!(editor.cursor(), (1, 2));
}

#[test]
fn adjust_scroll_reveals_cursor_above_and_below() {
    let content: Vec<String> = (0..50).map(|i| i.to_string()).collect();
    let mut editor = open(&content.join("\n"));
    keys(&mut editor, "G");
    assert_eq!(editor.cursor(), (2, 49));
    // rows 49 - 22 + 1 .. 49 are on screen
    assert_eq!(editor.scroll_offset(), 28);
    editor.adjust_scroll(5);
    assert_eq!(editor.scroll_offset(), 45);
    editor.adjust_scroll(22);
    assert_eq!(editor.scroll_offset(), 45);
    editor.move_cursor_up();
    editor.move_cursor_up();
    editor.adjust_scroll(1);
    assert_eq!(editor.scroll_offset(), 47);
    for _ in 0..10 {
        editor.move_cursor_up();
    }
    editor.adjust_scroll(3);
    assert_eq!(editor.cursor().1, 37);
    assert_eq!(editor.scroll_offset(), 37);
}

#[test]
fn cursor_stays_on_screen_while_moving() {
    let content: Vec<String> = (0..60).map(|i| "x".repeat(i % 7)).collect();
    let mut editor = open(&content.join("\n"));
    let height: u16 = 12;
    let rows = 10;
    let script = "jjjjjjjjjjjjjjjjjjjjlllllllllllllllllllllkkkkkkkkkkkkkkkkkkkkkhhhhhhhhhhhhhhhhhhhGjjkkkkk";
    for c in script.chars() {
        editor.handle_key_event(KeyPress::plain(Key::Char(c)), height);
        let (x, y) = editor.cursor();
        let lines = editor.lines();
        assert!(y < lines.len());
        assert!(x <= lines[y].chars().count());
        assert!(editor.scroll_offset() <= y);
        assert!(y < editor.scroll_offset() + rows);
        assert!(editor.is_well_formed());
    }
}

#[test]
fn resize_scrolls_to_the_cursor() {
    let content: Vec<String> = (0..40).map(|i| i.to_string()).collect();
    let mut editor = open(&content.join("\n"));
    for _ in 0..20 {
        press(&mut editor, Key::Down);
    }
    assert_eq!(editor.scroll_offset(), 0);
    editor.handle_resize(6);
    // 4 lines of text: rows 17..=20
    assert_eq!(editor.scroll_offset(), 17);
    assert_eq!(editor.cursor(), (0, 20));
    assert_eq!(editor.mode(), Mode::Normal);
}

#[test]
fn scrolling_without_text_rows_puts_offset_below_cursor() {
    let mut editor = open("a\nb\nc");
    editor.adjust_scroll(0);
    assert_eq!(editor.scroll_offset(), 1);
    assert_eq!(editor.cursor(), (0, 0));
}

#[test]
fn normal_mode_key_clears_the_message() {
    let mut editor = Editor::new(
        Some("gone.txt".to_string()),
        Err("denied".to_string()),
        Config::default(),
    );
    assert_eq!(editor.message(), "Error reading file gone.txt: denied");
    press(&mut editor, Key::Char('x'));
    assert_eq!(editor.message(), "");
}

#[test]
fn plain_g_leaves_the_scroll_offset() {
    let mut editor = open("0\n1\n2\n3\n4");
    keys(&mut editor, "G");
    assert_eq!(editor.cursor(), (1, 4));
    assert_eq!(editor.scroll_offset(), 0);
    // on a terminal of four rows the cursor's row is off screen
    assert_eq!(editor.handle_key_event(KeyPress::plain(Key::Char('g')), 4), Step::Continue);
    assert_eq!(editor.cursor(), (1, 4));
    assert_eq!(editor.scroll_offset(), 0);
    assert_eq!(
        editor.handle_key_event(KeyPress { key: Key::Char('g'), ctrl: true }, 4),
        Step::Continue
    );
    assert_eq!(editor.cursor(), (0, 0));
    assert_eq!(editor.scroll_offset(), 0);
}

#[test]
fn keys_that_do_not_move_the_cursor_do_not_scroll() {
    let others = [
        Key::Char('d'),
        Key::Char('x'),
        Key::Char('g'),
        Key::Esc,
        Key::Other,
        Key::Enter,
        Key::Backspace,
        Key::Delete,
    ];
    for key in others {
        let mut editor = open("0\n1\n2\n3\n4");
        keys(&mut editor, "G");
        assert_eq!(editor.handle_key_event(KeyPress::plain(key), 4), Step::Continue);
        assert_eq!(editor.cursor(), (1, 4));
        assert_eq!(editor.scroll_offset(), 0);
        assert_eq!(editor.mode(), Mode::Normal);
    }
    for (key, mode) in [(Key::Char('i'), Mode::Insert), (Key::Char(':'), Mode::Command)] {
        let mut editor = open("0\n1\n2\n3\n4");
        keys(&mut editor, "G");
        assert_eq!(editor.handle_key_event(KeyPress::plain(key), 4), Step::Continue);
        assert_eq!(editor.cursor(), (1, 4));
        assert_eq!(editor.scroll_offset(), 0);
        assert_eq!(editor.mode(), mode);
    }
}

#[test]
fn keys_that_move_the_cursor_scroll_to_it() {
    let moves = [
        (Key::Char('h'), (0, 4)),
        (Key::Char('l'), (1, 4)),
        (Key::Char('k'), (1, 3)),
        (Key::Char('j'), (1, 4)),
        (Key::Char('^'), (0, 4)),
        (Key::Char('$'), (1, 4)),
        (Key::Char('G'), (1, 4)),
        (Key::Left, (0, 4)),
        (Key::Right, (1, 4)),
        (Key::Up, (1, 3)),
        (Key::Down, (1, 4)),
        (Key::PageUp, (1, 2)),
        (Key::PageDown, (1, 4)),
    ];
    for (key, cursor) in moves {
        let mut editor = open("0\n1\n2\n3\n4");
        keys(&mut editor, "G");
        assert_eq!(editor.scroll_offset(), 0);
        // four rows, two of them the mode bar: two lines of text
        assert_eq!(editor.handle_key_event(KeyPress::plain(key), 4), Step::Continue);
        assert_eq!(editor.cursor(), cursor, "key {:?}", key);
        assert_eq!(editor.scroll_offset(), cursor.1 - 1, "key {:?}", key);
    }
}
