use fervim::config::Config;
use fervim::editor::{Editor, Mode, Step};
use fervim::key::{Key, KeyPress};

fn press(editor: &mut Editor, key: Key) -> Step {
    editor.handle_key_event(KeyPress::plain(key), 24)
}

fn type_text(editor: &mut Editor, text: &str) {
    for c in text.chars() {
        assert_eq!(press(editor, Key::Char(c)), Step::Continue);
    }
}

#[test]
fn new_file_is_typed_saved_and_closed() {
    let error = "No such file or directory (os error 2)".to_string();
    let mut editor = Editor::new(Some("new.txt".to_string()), Err(error), Config::default());
    assert_eq!(editor.lines(), vec!["".to_string()]);
    assert!(editor.is_dirty());
    assert!(editor.message().contains("Error reading file"));
    assert_eq!(
        editor.message(),
        "Error reading file new.txt: No such file or directory (os error 2)"
    );

    press(&mut editor, Key::Char('i'));
    type_text(&mut editor, "hi");
    press(&mut editor, Key::Esc);
    assert_eq!(editor.lines(), vec!["hi".to_string()]);
    assert_eq!(editor.mode(), Mode::Normal);
    assert_eq!(editor.cursor(), (2, 0));

    press(&mut editor, Key::Char(':'));
    assert_eq!(editor.mode(), Mode::Command);
    type_text(&mut editor, "wq");
    let step = press(&mut editor, Key::Enter);
    assert_eq!(
        step,
        Step::Write { path: "new.txt".to_string(), content: "hi".to_string(), quit_after: true }
    );
    assert!(!editor.finish_write(Ok(()), true));
    assert!(!editor.is_dirty());
}

#[test]
fn right_at_end_of_last_line_stays() {
    let mut editor =
        Editor::new(Some("a.txt".to_string()), Ok("abc".to_string()), Config::default());
    press(&mut editor, Key::Char('$'));
    assert_eq!(editor.cursor(), (3, 0));
    press(&mut editor, Key::Right);
    assert_eq!(editor.cursor(), (3, 0));
    assert_eq!(editor.lines(), vec!["abc".to_string()]);
}

#[test]
fn backspace_at_line_start_joins_lines() {
    let mut editor =
        Editor::new(Some("a.txt".to_string()), Ok("ab\ncd".to_string()), Config::default());
    assert_eq!(editor.lines(), vec!["ab".to_string(), "cd".to_string()]);
    press(&mut editor, Key::Char('j'));
    assert_eq!(editor.cursor(), (0, 1));
    press(&mut editor, Key::Char('i'));
    press(&mut editor, Key::Backspace);
    assert_eq!(editor.lines(), vec!["abcd".to_string()]);
    assert_eq!(editor.cursor(), (2, 0));
    assert!(editor.is_dirty());
}
