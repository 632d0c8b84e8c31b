//! The editing session: the buffer, the cursor, the viewport, the mode and
//! the document's status, and the keys that act on them.

use crate::config::Config;
use crate::key::{Key, KeyPress};
use crate::state::{moves_cursor, EditorView, StepView};
use crate::text::{chars_of, lines_of, rows, spells, string_of, text_of, texts, trim};
use vstd::prelude::*;

pub use crate::state::Mode;

verus! {

/// What the host has to do once a key is handled.
#[derive(Debug, PartialEq, Eq)]
pub enum Step {
    /// Go on with the next event.
    Continue,
    /// End the session.
    Quit,
    /// Write `content` to the file at `path`, then hand the outcome to
    /// [`Editor::finish_write`] together with `quit_after`.
    Write { path: String, content: String, quit_after: bool },
}

impl View for Step {
    type V = StepView;

    open spec fn view(&self) -> StepView {
        match *self {
            Step::Continue => StepView::Continue,
            Step::Quit => StepView::Quit,
            Step::Write { path, content, quit_after } => StepView::Write {
                path: path@,
                content: content@,
                quit_after,
            },
        }
    }
}

/// The characters of an optional string.
pub open spec fn optional_text(s: Option<String>) -> Option<Seq<char>> {
    match s {
        Some(text) => Some(text@),
        None => None,
    }
}

/// The characters of what reading a file gave.
pub open spec fn read_text(read: Result<String, String>) -> Result<Seq<char>, Seq<char>> {
    match read {
        Ok(content) => Ok(content@),
        Err(error) => Err(error@),
    }
}

/// The characters of what writing a file gave.
pub open spec fn write_text(outcome: Result<(), String>) -> Result<(), Seq<char>> {
    match outcome {
        Ok(_) => Ok(()),
        Err(error) => Err(error@),
    }
}

/// Whether a key moves the cursor in Normal mode.
fn is_motion(press: KeyPress) -> (moves: bool)
    ensures
        moves == moves_cursor(press),
{
    match press.key {
        Key::Char(c) => c == 'h' || c == 'j' || c == 'k' || c == 'l' || c == '^' || c == '$'
            || c == 'G' || (c == 'g' && press.ctrl),
        Key::Left | Key::Right | Key::Up | Key::Down | Key::PageUp | Key::PageDown => true,
        _ => false,
    }
}

/// An editing session.
pub struct Editor {
    lines: Vec<Vec<char>>,
    cursor_x: usize,
    cursor_y: usize,
    scroll_offset_y: usize,
    mode: Mode,
    command_input: Vec<char>,
    filename: Option<String>,
    dirty: bool,
    message: String,
    config: Config,
}

impl View for Editor {
    type V = EditorView;

    closed spec fn view(&self) -> EditorView {
        EditorView {
            lines: rows(self.lines@),
            cursor_x: self.cursor_x as int,
            cursor_y: self.cursor_y as int,
            scroll: self.scroll_offset_y as int,
            mode: self.mode,
            command: self.command_input@,
            filename: optional_text(self.filename),
            dirty: self.dirty,
            message: self.message@,
            config: self.config,
        }
    }
}

impl Editor {
    /// The session's invariant: see [`EditorView::wf`].
    pub open spec fn wf(&self) -> bool {
        self@.wf()
    }

    /// Starts a session. `read` is what reading the file at `filename`
    /// gave, its content or the reason why it could not be read; it is not
    /// looked at where there is no filename.
    pub fn new(filename: Option<String>, read: Result<String, String>, config: Config) -> (editor:
        Editor)
        ensures
            editor.wf(),
            editor@ == EditorView::opened(optional_text(filename), read_text(read), config),
    {
        let mut lines: Vec<Vec<char>> = Vec::new();
        let mut dirty = true;
        let mut message = String::new();
        match &filename {
            Some(path) => match &read {
                Ok(content) => {
                    lines = lines_of(content.as_str());
                    dirty = false;
                },
                Err(error) => {
                    lines.push(Vec::new());
                    message = "Error reading file ".to_owned();
                    message.append(path.as_str());
                    message.append(": ");
                    message.append(error.as_str());
                },
            },
            None => {
                lines.push(Vec::new());
            },
        }
        let editor = Editor {
            lines,
            cursor_x: 0,
            cursor_y: 0,
            scroll_offset_y: 0,
            mode: Mode::Normal,
            command_input: Vec::new(),
            filename,
            dirty,
            message,
            config,
        };
        proof {
            let expected = EditorView::opened(optional_text(filename), read_text(read), config);
            assert(editor@.lines =~= expected.lines);
            assert(editor@.message =~= expected.message);
        }
        editor
    }

    /// Whether the session's invariant holds. It does after `new` and after
    /// every method of the session.
    pub fn is_well_formed(&self) -> (ok: bool)
        ensures
            ok == self.wf(),
    {
        self.cursor_y < self.lines.len() && self.cursor_x <= self.lines[self.cursor_y].len()
    }

    /// The appearance options the session was started with.
    pub fn config(&self) -> (config: &Config)
        ensures
            *config == self@.config,
    {
        &self.config
    }

    /// The active mode.
    pub fn mode(&self) -> (mode: Mode)
        ensures
            mode == self@.mode,
    {
        self.mode
    }

    /// The cursor: its column, then its row.
    pub fn cursor(&self) -> (position: (usize, usize))
        ensures
            position.0 == self@.cursor_x,
            position.1 == self@.cursor_y,
    {
        (self.cursor_x, self.cursor_y)
    }

    /// The index of the topmost line on screen.
    pub fn scroll_offset(&self) -> (offset: usize)
        ensures
            offset == self@.scroll,
    {
        self.scroll_offset_y
    }

    /// Whether the buffer has unsaved changes, or no file.
    pub fn is_dirty(&self) -> (dirty: bool)
        ensures
            dirty == self@.dirty,
    {
        self.dirty
    }

    /// The status message; empty where there is none.
    pub fn message(&self) -> (message: &str)
        ensures
            message@ == self@.message,
    {
        self.message.as_str()
    }

    /// The path of the file the buffer is saved to, if it has one.
    pub fn filename(&self) -> (filename: &Option<String>)
        ensures
            optional_text(*filename) == self@.filename,
    {
        &self.filename
    }

    /// What has been typed at the command prompt.
    pub fn command_input(&self) -> (typed: String)
        ensures
            typed@ == self@.command,
    {
        string_of(&self.command_input)
    }

    /// The number of lines in the buffer.
    pub fn line_count(&self) -> (count: usize)
        ensures
            count == self@.lines.len(),
    {
        self.lines.len()
    }

    /// The lines of the buffer, top to bottom.
    pub fn lines(&self) -> (lines: Vec<String>)
        ensures
            texts(lines@) == self@.lines,
    {
        let mut lines: Vec<String> = Vec::new();
        let mut i: usize = 0;
        while i < self.lines.len()
            invariant
                i <= self.lines.len(),
                texts(lines@) == self@.lines.take(i as int),
            decreases self.lines.len() - i,
        {
            let line = string_of(&self.lines[i]);
            let ghost before = texts(lines@);
            lines.push(line);
            assert(texts(lines@) =~= before.push(line@));
            assert(self@.lines.take(i + 1) =~= self@.lines.take(i as int).push(
                self@.lines[i as int],
            ));
            i += 1;
        }
        assert(self@.lines.take(i as int) =~= self@.lines);
        lines
    }

    /// The characters of the line at `index`.
    pub(crate) fn line_chars(&self, index: usize) -> (line: &Vec<char>)
        requires
            index < self@.lines.len(),
        ensures
            line@ == self@.lines[index as int],
    {
        &self.lines[index]
    }

    /// The characters typed at the command prompt.
    pub(crate) fn command_chars(&self) -> (typed: &Vec<char>)
        ensures
            typed@ == self@.command,
    {
        &self.command_input
    }

    /// Pulls a column that lies behind the end of its line back to that
    /// end. The cursor's row has to be a line of the buffer; its column may
    /// lie anywhere.
    pub fn adjust_cursor_to_line_end(&mut self)
        requires
            0 <= old(self)@.cursor_y < old(self)@.lines.len(),
        ensures
            final(self).wf(),
            final(self)@ == old(self)@.clamp_column(),
    {
        let current_line_len = self.lines[self.cursor_y].len();
        if self.cursor_x > current_line_len {
            self.cursor_x = current_line_len;
        }
    }

    /// Moves the cursor one column to the left, or from the start of a line
    /// to the end of the line above.
    pub fn move_cursor_left(&mut self)
        requires
            old(self).wf(),
        ensures
            final(self).wf(),
            final(self)@ == old(self)@.move_left(),
    {
        if self.cursor_x > 0 {
            self.cursor_x -= 1;
        } else if self.cursor_y > 0 {
            self.cursor_y -= 1;
            self.cursor_x = self.lines[self.cursor_y].len();
        }
    }

    /// Moves the cursor one column to the right, or from the end of a line
    /// to the start of the line below.
    pub fn move_cursor_right(&mut self)
        requires
            old(self).wf(),
        ensures
            final(self).wf(),
            final(self)@ == old(self)@.move_right(),
    {
        assert(self.cursor_y < self.lines.len());
        if self.cursor_x < self.lines[self.cursor_y].len() {
            self.cursor_x += 1;
        } else if self.cursor_y + 1 < self.lines.len() {
            self.cursor_y += 1;
            self.cursor_x = 0;
        }
    }

    /// Moves the cursor one row up and pulls its column back into the line.
    pub fn move_cursor_up(&mut self)
        requires
            old(self).wf(),
        ensures
            final(self).wf(),
            final(self)@ == old(self)@.move_up(),
    {
        if self.cursor_y > 0 {
            self.cursor_y -= 1;
            self.adjust_cursor_to_line_end();
        }
    }

    /// Moves the cursor one row down and pulls its column back into the
    /// line.
    pub fn move_cursor_down(&mut self)
        requires
            old(self).wf(),
        ensures
            final(self).wf(),
            final(self)@ == old(self)@.move_down(),
    {
        assert(self.cursor_y < self.lines.len());
        if self.cursor_y + 1 < self.lines.len() {
            self.cursor_y += 1;
            self.adjust_cursor_to_line_end();
        }
    }

    /// Scrolls to the cursor's row, whatever its column.
    fn scroll_to_cursor(&mut self, text_area_height: u16)
        requires
            0 <= old(self)@.cursor_y < old(self)@.lines.len(),
        ensures
            final(self)@ == old(self)@.scrolled(text_area_height as int),
    {
        assert(self.cursor_y < self.lines.len());
        if self.cursor_y < self.scroll_offset_y {
            self.scroll_offset_y = self.cursor_y;
        }
        if self.cursor_y - self.scroll_offset_y >= text_area_height as usize {
            self.scroll_offset_y = self.cursor_y - text_area_height as usize + 1;
        }
    }

    /// Scrolls just far enough to show the cursor's row on a screen with
    /// `text_area_height` lines of text. With at least one such line the
    /// cursor's row is on screen afterwards.
    pub fn adjust_scroll(&mut self, text_area_height: u16)
        requires
            old(self).wf(),
        ensures
            final(self).wf(),
            final(self)@ == old(self)@.scrolled(text_area_height as int),
            text_area_height > 0 ==> final(self)@.in_view(text_area_height as int),
    {
        self.scroll_to_cursor(text_area_height);
    }

    /// Takes in that the terminal now has `height` rows: scrolls to the
    /// cursor's row. Nothing else changes.
    pub fn handle_resize(&mut self, height: u16)
        requires
            old(self).wf(),
        ensures
            final(self).wf(),
            final(self)@ == old(self)@.scrolled(old(self)@.config.text_rows(height) as int),
            old(self)@.config.text_rows(height) > 0 ==> final(self)@.in_view(
                old(self)@.config.text_rows(height) as int,
            ),
    {
        let text_area_height = self.config.text_area_height(height);
        self.adjust_scroll(text_area_height);
    }

    /// Moves the cursor up by one screen of `text_area_height` lines, but
    /// not above the first row.
    pub fn page_up(&mut self, text_area_height: u16)
        requires
            old(self).wf(),
        ensures
            final(self).wf(),
            final(self)@ == old(self)@.page_up(text_area_height as int),
    {
        if self.cursor_y >= text_area_height as usize {
            self.cursor_y -= text_area_height as usize;
        } else {
            self.cursor_y = 0;
        }
        self.scroll_to_cursor(text_area_height);
        self.adjust_cursor_to_line_end();
    }

    /// Moves the cursor down by one screen of `text_area_height` lines, but
    /// not below the last row.
    pub fn page_down(&mut self, text_area_height: u16)
        requires
            old(self).wf(),
        ensures
            final(self).wf(),
            final(self)@ == old(self)@.page_down(text_area_height as int),
    {
        let last = self.lines.len() - 1;
        if last - self.cursor_y >= text_area_height as usize {
            self.cursor_y += text_area_height as usize;
        } else {
            self.cursor_y = last;
        }
        self.scroll_to_cursor(text_area_height);
        self.adjust_cursor_to_line_end();
    }

    /// Inserts `c` at the cursor and moves the cursor behind it.
    pub fn insert_char(&mut self, c: char)
        requires
            old(self).wf(),
        ensures
            final(self).wf(),
            final(self)@ == old(self)@.insert_char(c),
    {
        assert(self.cursor_y < self.lines.len());
        self.lines[self.cursor_y].insert(self.cursor_x, c);
        assert(self.lines[self.cursor_y as int].len() == old(self)@.line().len() + 1);
        self.cursor_x += 1;
        self.dirty = true;
        assert(self@.lines =~= old(self)@.insert_char(c).lines);
    }

    /// Removes the character before the cursor, or joins the cursor's line
    /// to the line above where the cursor is at the start of its line.
    pub fn delete_char_before(&mut self)
        requires
            old(self).wf(),
        ensures
            final(self).wf(),
            final(self)@ == old(self)@.delete_before(),
    {
        assert(self.cursor_y < self.lines.len());
        if self.cursor_x > 0 {
            self.cursor_x -= 1;
            self.lines[self.cursor_y].remove(self.cursor_x);
            self.dirty = true;
            assert(self@.lines =~= old(self)@.delete_before().lines);
        } else if self.cursor_y > 0 {
            let mut current_line = self.lines.remove(self.cursor_y);
            self.cursor_y -= 1;
            self.cursor_x = self.lines[self.cursor_y].len();
            self.lines[self.cursor_y].append(&mut current_line);
            self.dirty = true;
            assert(self@.lines =~= old(self)@.delete_before().lines);
        }
    }

    /// Removes the character at the cursor, or joins the line below to the
    /// cursor's line where the cursor is at the end of its line.
    pub fn delete_char_after(&mut self)
        requires
            old(self).wf(),
        ensures
            final(self).wf(),
            final(self)@ == old(self)@.delete_after(),
    {
        assert(self.cursor_y < self.lines.len());
        if self.cursor_x < self.lines[self.cursor_y].len() {
            self.lines[self.cursor_y].remove(self.cursor_x);
            self.dirty = true;
            assert(self@.lines =~= old(self)@.delete_after().lines);
        } else if self.cursor_y + 1 < self.lines.len() {
            let mut next_line = self.lines.remove(self.cursor_y + 1);
            self.lines[self.cursor_y].append(&mut next_line);
            self.dirty = true;
            assert(self@.lines =~= old(self)@.delete_after().lines);
        }
    }

    /// Splits the cursor's line at the cursor and moves the cursor to the
    /// start of the new line below.
    pub fn split_line(&mut self)
        requires
            old(self).wf(),
        ensures
            final(self).wf(),
            final(self)@ == old(self)@.split_line(),
    {
        assert(self.cursor_y < self.lines.len());
        let new_line = self.lines[self.cursor_y].split_off(self.cursor_x);
        self.cursor_y += 1;
        self.lines.insert(self.cursor_y, new_line);
        self.cursor_x = 0;
        self.dirty = true;
        assert(self@.lines =~= old(self)@.split_line().lines);
    }

    /// Saves the buffer: with a filename, tells the host to write the
    /// buffer's text to it; without one, leaves a message and goes on.
    /// Nothing counts as saved before [`Editor::finish_write`] hears that
    /// the write succeeded.
    pub fn save_file(&mut self, quit_after: bool) -> (step: Step)
        requires
            old(self).wf(),
        ensures
            final(self).wf(),
            final(self)@ == old(self)@.save(quit_after).0,
            step@ == old(self)@.save(quit_after).1,
    {
        match &self.filename {
            Some(path) => {
                let content = text_of(&self.lines);
                Step::Write { path: path.clone(), content, quit_after }
            },
            None => {
                self.message = "No filename. Use :w <filename> to save.".to_owned();
                Step::Continue
            },
        }
    }

    /// Runs a command as typed at the prompt, without surrounding white
    /// space: `q`, `q!`, `w` or `wq`. Any other text leaves a message.
    pub fn execute_command(&mut self, command: &str) -> (step: Step)
        requires
            old(self).wf(),
        ensures
            final(self).wf(),
            final(self)@ == old(self)@.execute(command@).0,
            step@ == old(self)@.execute(command@).1,
    {
        let typed = chars_of(command);
        if spells(&typed, "q") {
            if self.dirty {
                self.message = "No write since last change (add ! to override)".to_owned();
                Step::Continue
            } else {
                Step::Quit
            }
        } else if spells(&typed, "q!") {
            Step::Quit
        } else if spells(&typed, "w") {
            self.save_file(false)
        } else if spells(&typed, "wq") {
            self.save_file(true)
        } else {
            let mut message = "Unknown command: ".to_owned();
            message.append(command);
            self.message = message;
            Step::Continue
        }
    }

    /// Takes in how the write went that a [`Step::Write`] asked for, and
    /// says whether the session goes on. Only a write that succeeded leaves
    /// the buffer clean.
    pub fn finish_write(&mut self, outcome: Result<(), String>, quit_after: bool) -> (proceed: bool)
        requires
            old(self).wf(),
        ensures
            final(self).wf(),
            final(self)@ == old(self)@.write_finished(write_text(outcome), quit_after).0,
            proceed == old(self)@.write_finished(write_text(outcome), quit_after).1,
    {
        match &self.filename {
            Some(path) => match &outcome {
                Ok(_) => {
                    self.dirty = false;
                    if quit_after {
                        false
                    } else {
                        self.message = "File written.".to_owned();
                        true
                    }
                },
                Err(error) => {
                    let mut message = "Error writing file ".to_owned();
                    message.append(path.as_str());
                    message.append(": ");
                    message.append(error.as_str());
                    self.message = message;
                    true
                },
            },
            None => {
                self.message = "No filename. Use :w <filename> to save.".to_owned();
                true
            },
        }
    }

    /// Handles a character key in Normal mode, before scrolling.
    fn normal_char(&mut self, c: char, ctrl: bool)
        requires
            old(self).wf(),
        ensures
            final(self).wf(),
            final(self)@ == old(self)@.normal_char(c, ctrl),
    {
        assert(self.cursor_y < self.lines.len());
        if c == 'i' {
            self.mode = Mode::Insert;
        } else if c == 'h' {
            self.move_cursor_left();
        } else if c == 'l' {
            self.move_cursor_right();
        } else if c == 'k' {
            self.move_cursor_up();
        } else if c == 'j' {
            self.move_cursor_down();
        } else if c == '^' {
            self.cursor_x = 0;
        } else if c == '$' {
            self.cursor_x = self.lines[self.cursor_y].len();
        } else if c == 'G' {
            self.cursor_y = self.lines.len() - 1;
            self.cursor_x = self.lines[self.cursor_y].len();
        } else if c == 'g' && ctrl {
            self.cursor_y = 0;
            self.cursor_x = 0;
        } else if c == ':' {
            self.mode = Mode::Command;
            self.command_input = Vec::new();
        }
    }

    /// Handles a key in Normal mode on a screen with `text_area_height`
    /// lines of text. A key that moves the cursor scrolls the screen to it;
    /// any other key leaves the scroll offset alone. So with at least one
    /// line of text the cursor's row is on screen after a key that moves
    /// the cursor, and after any other key if it was before.
    pub fn handle_normal_mode_key(&mut self, event: KeyPress, text_area_height: u16)
        requires
            old(self).wf(),
        ensures
            final(self).wf(),
            final(self)@ == old(self)@.normal_key(event, text_area_height as int),
            !moves_cursor(event) ==> final(self)@.scroll == old(self)@.scroll,
            !moves_cursor(event) ==> final(self)@.cursor_x == old(self)@.cursor_x,
            !moves_cursor(event) ==> final(self)@.cursor_y == old(self)@.cursor_y,
            text_area_height > 0 && (moves_cursor(event) || old(self)@.in_view(
                text_area_height as int,
            )) ==> final(self)@.in_view(text_area_height as int),
    {
        self.message = String::new();
        match event.key {
            Key::Char(c) => self.normal_char(c, event.ctrl),
            Key::Left => self.move_cursor_left(),
            Key::Right => self.move_cursor_right(),
            Key::Up => self.move_cursor_up(),
            Key::Down => self.move_cursor_down(),
            Key::PageUp => self.page_up(text_area_height),
            Key::PageDown => self.page_down(text_area_height),
            Key::Esc => {
                self.command_input = Vec::new();
                self.mode = Mode::Normal;
            },
            _ => {},
        }
        if is_motion(event) {
            self.adjust_scroll(text_area_height);
        }
    }

    /// Handles a key in Insert mode on a screen with `text_area_height`
    /// lines of text. With at least one such line the cursor's row is on
    /// screen afterwards.
    pub fn handle_insert_mode_key(&mut self, event: KeyPress, text_area_height: u16)
        requires
            old(self).wf(),
        ensures
            final(self).wf(),
            final(self)@ == old(self)@.insert_key(event, text_area_height as int),
            text_area_height > 0 ==> final(self)@.in_view(text_area_height as int),
    {
        self.message = String::new();
        match event.key {
            Key::Char(c) => self.insert_char(c),
            Key::Backspace => self.delete_char_before(),
            Key::Delete => self.delete_char_after(),
            Key::Enter => self.split_line(),
            Key::Left => self.move_cursor_left(),
            Key::Right => self.move_cursor_right(),
            Key::Up => self.move_cursor_up(),
            Key::Down => self.move_cursor_down(),
            Key::Esc => {
                self.mode = Mode::Normal;
                self.adjust_cursor_to_line_end();
            },
            _ => {},
        }
        self.adjust_scroll(text_area_height);
    }

    /// Handles a key at the command prompt. Enter runs what was typed,
    /// without its surrounding white space, and returns to Normal mode.
    pub fn handle_command_mode_key(&mut self, event: KeyPress) -> (step: Step)
        requires
            old(self).wf(),
        ensures
            final(self).wf(),
            final(self)@ == old(self)@.command_key(event).0,
            step@ == old(self)@.command_key(event).1,
    {
        self.message = String::new();
        match event.key {
            Key::Char(c) => {
                self.command_input.push(c);
                Step::Continue
            },
            Key::Backspace => {
                self.command_input.pop();
                assert(self@.command =~= old(self)@.command_key(event).0.command);
                Step::Continue
            },
            Key::Enter => {
                let typed = string_of(&self.command_input);
                let step = self.execute_command(trim(typed.as_str()));
                self.command_input = Vec::new();
                self.mode = Mode::Normal;
                step
            },
            Key::Esc => {
                self.command_input = Vec::new();
                self.mode = Mode::Normal;
                Step::Continue
            },
            _ => Step::Continue,
        }
    }

    /// Handles one key press on a terminal with `height` rows, and says
    /// what the host has to do next. If the terminal has a line of text
    /// above the mode bar, the cursor's row is on screen after every key
    /// that scrolls, and after any other key if it was before.
    pub fn handle_key_event(&mut self, event: KeyPress, height: u16) -> (step: Step)
        requires
            old(self).wf(),
        ensures
            final(self).wf(),
            final(self)@ == old(self)@.key_step(event, height).0,
            step@ == old(self)@.key_step(event, height).1,
            old(self)@.config.text_rows(height) > 0 && (old(self)@.scrolls_on(event)
                || old(self)@.in_view(old(self)@.config.text_rows(height) as int))
                ==> final(self)@.in_view(old(self)@.config.text_rows(height) as int),
    {
        let text_area_height = self.config.text_area_height(height);
        match self.mode {
            Mode::Normal => {
                self.handle_normal_mode_key(event, text_area_height);
                Step::Continue
            },
            Mode::Insert => {
                self.handle_insert_mode_key(event, text_area_height);
                Step::Continue
            },
            Mode::Command => self.handle_command_mode_key(event),
        }
    }
}

} // verus!
