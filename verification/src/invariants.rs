//! What holds of every state of a session, whatever keys were pressed.

use crate::config::Config;
use crate::frame::{low_bits, CursorShape, DrawOpView};
use crate::key::{Key, KeyPress};
use crate::state::{moves_cursor, unsaved_message, EditorView, Mode, StepView};
use crate::text::{is_single_line, join_lines, lemma_join_of_split, lemma_split_of_join};
use vstd::prelude::*;

verus! {

/// A session starts in a well-formed state, with the first line on screen.
pub proof fn lemma_opened_is_wf(
    filename: Option<Seq<char>>,
    read: Result<Seq<char>, Seq<char>>,
    config: Config,
)
    ensures
        EditorView::opened(filename, read, config).wf(),
        forall|rows: int| rows > 0 ==> EditorView::opened(filename, read, config).in_view(rows),
{
}

/// No movement of the cursor takes it out of the text, and none changes
/// anything but the cursor.
pub proof fn lemma_moves_keep_wf(s: EditorView)
    requires
        s.wf(),
    ensures
        s.clamp_column().wf(),
        s.move_left().wf(),
        s.move_right().wf(),
        s.move_up().wf(),
        s.move_down().wf(),
        s.jump_to_start().wf(),
        s.jump_to_end().wf(),
        s.move_left().lines == s.lines,
        s.move_right().lines == s.lines,
        s.move_up().lines == s.lines,
        s.move_down().lines == s.lines,
{
}

/// Scrolling and paging leave a well-formed state well formed, whatever
/// the size of the screen.
pub proof fn lemma_paging_keeps_wf(s: EditorView, rows: int)
    requires
        s.wf(),
        0 <= rows,
    ensures
        s.scrolled(rows).wf(),
        s.page_up(rows).wf(),
        s.page_down(rows).wf(),
{
}

/// No edit of the buffer leaves it without a line, or the cursor outside
/// the text.
pub proof fn lemma_edits_keep_wf(s: EditorView, c: char)
    requires
        s.wf(),
    ensures
        s.insert_char(c).wf(),
        s.delete_before().wf(),
        s.delete_after().wf(),
        s.split_line().wf(),
{
}

/// No character key in Normal mode makes a well-formed state ill-formed.
pub proof fn lemma_normal_char_keeps_wf(s: EditorView, c: char, ctrl: bool)
    requires
        s.wf(),
    ensures
        s.normal_char(c, ctrl).wf(),
        s.normal_char(c, ctrl).config == s.config,
{
    lemma_moves_keep_wf(s);
}

/// No key in Normal mode makes a well-formed state ill-formed.
pub proof fn lemma_normal_key_keeps_wf(s: EditorView, press: KeyPress, rows: int)
    requires
        s.wf(),
        0 <= rows,
    ensures
        s.normal_key(press, rows).wf(),
        s.normal_key(press, rows).config == s.config,
{
    let cleared = s.with_message(Seq::empty());
    let moved = match press.key {
        Key::Char(c) => cleared.normal_char(c, press.ctrl),
        Key::Left => cleared.move_left(),
        Key::Right => cleared.move_right(),
        Key::Up => cleared.move_up(),
        Key::Down => cleared.move_down(),
        Key::PageUp => cleared.page_up(rows),
        Key::PageDown => cleared.page_down(rows),
        Key::Esc => cleared.to_normal(),
        _ => cleared,
    };
    assert(moved.wf() && moved.config == s.config) by {
        lemma_moves_keep_wf(cleared);
        lemma_paging_keeps_wf(cleared, rows);
        match press.key {
            Key::Char(c) => lemma_normal_char_keeps_wf(cleared, c, press.ctrl),
            _ => {},
        }
    }
    lemma_paging_keeps_wf(moved, rows);
}

/// A key that does not move the cursor in Normal mode leaves the cursor,
/// the scroll offset and the buffer as they are. A plain `g` is such a key.
pub proof fn lemma_other_keys_leave_cursor(s: EditorView, press: KeyPress, rows: int)
    requires
        !moves_cursor(press),
    ensures
        s.normal_key(press, rows).cursor_x == s.cursor_x,
        s.normal_key(press, rows).cursor_y == s.cursor_y,
        s.normal_key(press, rows).scroll == s.scroll,
        s.normal_key(press, rows).lines == s.lines,
        s.normal_key(press, rows).dirty == s.dirty,
{
}

/// No key in Insert mode makes a well-formed state ill-formed.
pub proof fn lemma_insert_key_keeps_wf(s: EditorView, press: KeyPress, rows: int)
    requires
        s.wf(),
        0 <= rows,
    ensures
        s.insert_key(press, rows).wf(),
        s.insert_key(press, rows).config == s.config,
{
    let cleared = s.with_message(Seq::empty());
    let edited = match press.key {
        Key::Char(c) => cleared.insert_char(c),
        Key::Backspace => cleared.delete_before(),
        Key::Delete => cleared.delete_after(),
        Key::Enter => cleared.split_line(),
        Key::Left => cleared.move_left(),
        Key::Right => cleared.move_right(),
        Key::Up => cleared.move_up(),
        Key::Down => cleared.move_down(),
        Key::Esc => EditorView { mode: Mode::Normal, ..cleared }.clamp_column(),
        _ => cleared,
    };
    assert(edited.wf() && edited.config == s.config) by {
        lemma_moves_keep_wf(cleared);
        lemma_moves_keep_wf(EditorView { mode: Mode::Normal, ..cleared });
        match press.key {
            Key::Char(c) => lemma_edits_keep_wf(cleared, c),
            _ => lemma_edits_keep_wf(cleared, ' '),
        }
    }
    lemma_paging_keeps_wf(edited, rows);
}

/// No key at the command prompt changes the buffer, the cursor or the
/// scroll offset.
pub proof fn lemma_command_key_keeps_text(s: EditorView, press: KeyPress)
    ensures
        s.command_key(press).0.lines == s.lines,
        s.command_key(press).0.cursor_x == s.cursor_x,
        s.command_key(press).0.cursor_y == s.cursor_y,
        s.command_key(press).0.scroll == s.scroll,
        s.command_key(press).0.config == s.config,
{
}

/// No key makes a well-formed state ill-formed.
pub proof fn lemma_key_keeps_wf(s: EditorView, press: KeyPress, height: u16)
    requires
        s.wf(),
    ensures
        s.key_step(press, height).0.wf(),
        s.key_step(press, height).0.config == s.config,
{
    let rows = s.config.text_rows(height) as int;
    match s.mode {
        Mode::Normal => lemma_normal_key_keeps_wf(s, press, rows),
        Mode::Insert => lemma_insert_key_keeps_wf(s, press, rows),
        Mode::Command => lemma_command_key_keeps_text(s, press),
    }
}

/// The end of a write leaves a well-formed state well formed.
pub proof fn lemma_write_keeps_wf(s: EditorView, outcome: Result<(), Seq<char>>, quit_after: bool)
    requires
        s.wf(),
    ensures
        s.write_finished(outcome, quit_after).0.wf(),
{
}

/// No sequence of keys makes a well-formed state ill-formed.
pub proof fn lemma_keys_keep_wf(s: EditorView, keys: Seq<KeyPress>, height: u16)
    requires
        s.wf(),
    ensures
        s.after_keys(keys, height).wf(),
        s.after_keys(keys, height).config == s.config,
    decreases keys.len(),
{
    if keys.len() > 0 {
        lemma_keys_keep_wf(s, keys.drop_last(), height);
        lemma_key_keeps_wf(s.after_keys(keys.drop_last(), height), keys.last(), height);
    }
}

/// Whatever keys are pressed, the cursor stays in the text: its row is a
/// line of the buffer, and its column lies within that line or just behind
/// its end.
pub proof fn lemma_cursor_stays_in_text(s: EditorView, keys: Seq<KeyPress>, height: u16)
    requires
        s.wf(),
    ensures
        0 <= s.after_keys(keys, height).cursor_y < s.after_keys(keys, height).lines.len(),
        0 <= s.after_keys(keys, height).cursor_x <= s.after_keys(keys, height).line().len(),
{
    lemma_keys_keep_wf(s, keys, height);
}

/// Whatever keys are pressed, the buffer keeps at least one line.
pub proof fn lemma_buffer_keeps_a_line(s: EditorView, keys: Seq<KeyPress>, height: u16)
    requires
        s.wf(),
    ensures
        s.after_keys(keys, height).lines.len() >= 1,
{
    lemma_keys_keep_wf(s, keys, height);
}

/// Scrolling shows the cursor's row, on any screen with a line of text.
/// This is what a resize of the terminal does.
pub proof fn lemma_scrolling_shows_cursor(s: EditorView, rows: int)
    requires
        s.wf(),
        rows > 0,
    ensures
        s.scrolled(rows).in_view(rows),
        s.scrolled(rows).wf(),
{
}

/// After a key that scrolls, the cursor's row is on screen, on any
/// terminal that has a line of text above the mode bar: after every key in
/// Insert mode, and after every key that moves the cursor in Normal mode.
/// After any other key the row is on screen if it was before.
pub proof fn lemma_key_shows_cursor(s: EditorView, press: KeyPress, height: u16)
    requires
        s.wf(),
        s.config.text_rows(height) > 0,
        s.scrolls_on(press) || s.in_view(s.config.text_rows(height) as int),
    ensures
        s.key_step(press, height).0.in_view(s.config.text_rows(height) as int),
{
    if s.mode == Mode::Command {
        lemma_command_key_keeps_text(s, press);
    }
}

/// Whatever keys are pressed, the cursor's row stays on screen, on any
/// terminal that has a line of text above the mode bar.
pub proof fn lemma_cursor_stays_in_view(s: EditorView, keys: Seq<KeyPress>, height: u16)
    requires
        s.wf(),
        s.config.text_rows(height) > 0,
        s.in_view(s.config.text_rows(height) as int),
    ensures
        s.after_keys(keys, height).in_view(s.config.text_rows(height) as int),
    decreases keys.len(),
{
    if keys.len() > 0 {
        let before = s.after_keys(keys.drop_last(), height);
        lemma_cursor_stays_in_view(s, keys.drop_last(), height);
        lemma_keys_keep_wf(s, keys.drop_last(), height);
        lemma_key_shows_cursor(before, keys.last(), height);
    }
}

/// With the cursor's row on screen, a frame puts the cursor on the row on
/// which it draws the cursor's line.
pub proof fn lemma_cursor_lands_on_its_line(s: EditorView, shape: CursorShape, rows: u16)
    requires
        s.in_view(rows as int),
    ensures
        0 <= s.cursor_y - s.scroll < rows,
        s.text_cursor(shape)[1] == (DrawOpView::MoveTo {
            x: low_bits(s.cursor_x),
            y: (s.cursor_y - s.scroll) as u16,
        }),
{
}

/// `q` ends the session if and only if the buffer has no unsaved changes.
/// With unsaved changes the session goes on, and the status message says
/// why.
pub proof fn lemma_quit_needs_clean_buffer(s: EditorView)
    ensures
        s.dirty ==> s.execute("q"@).1 == StepView::Continue,
        s.dirty ==> s.execute("q"@).0.message.len() > 0,
        s.dirty ==> s.execute("q"@).0.dirty,
        !s.dirty ==> s.execute("q"@) == (s, StepView::Quit),
{
    reveal_strlit("No write since last change (add ! to override)");
    assert(unsaved_message().len() > 0);
}

/// `w` and then `q` end the session, for a buffer with a filename whose
/// write succeeds: `w` asks for the buffer's text to be written to the
/// file, the write leaves the buffer clean, and `q` then quits without
/// changing the status message.
pub proof fn lemma_write_then_quit(s: EditorView)
    requires
        s.filename is Some,
    ensures
        s.execute("w"@) == (
            s,
            StepView::Write {
                path: s.filename->0,
                content: join_lines(s.lines),
                quit_after: false,
            },
        ),
        s.write_finished(Ok(()), false).1,
        !s.write_finished(Ok(()), false).0.dirty,
        s.write_finished(Ok(()), false).0.execute("q"@) == (
            s.write_finished(Ok(()), false).0,
            StepView::Quit,
        ),
{
    reveal_strlit("w");
    reveal_strlit("q");
    reveal_strlit("q!");
    assert("w"@[0] != "q"@[0]);
    assert("w"@[0] != "q!"@[0]);
}

/// A buffer that is saved and opened again from the same path holds the
/// same lines in the same order, empty lines at its end included, if the
/// write and the read succeed. This holds of every buffer whose lines hold
/// no line feed.
pub proof fn lemma_save_then_open(s: EditorView, quit_after: bool, config: Config)
    requires
        s.wf(),
        s.filename is Some,
        forall|i: int| 0 <= i < s.lines.len() ==> is_single_line(#[trigger] s.lines[i]),
    ensures
        s.save(quit_after).1 matches StepView::Write { path, content, .. } && EditorView::opened(
            Some(path),
            Ok(content),
            config,
        ).lines == s.lines,
{
    lemma_split_of_join(s.lines);
}

/// A file that is opened and saved unchanged keeps its content: the write
/// that saving asks for holds exactly what was read.
pub proof fn lemma_open_then_save(
    path: Seq<char>,
    content: Seq<char>,
    config: Config,
    quit_after: bool,
)
    ensures
        EditorView::opened(Some(path), Ok(content), config).save(quit_after).1 == (
            StepView::Write { path, content, quit_after }
        ),
{
    lemma_join_of_split(content);
}

} // verus!
