//! The editor as a mathematical state machine: the state, what each key
//! does to it, and what holds of every state that keys can reach.

use crate::config::Config;
use crate::key::{Key, KeyPress};
use crate::text::{join_lines, split_lines, trimmed};
use vstd::prelude::*;

verus! {

/// The active key-interpretation state.
#[derive(Clone, Copy, Debug, PartialEq, Eq, Structural)]
pub enum Mode {
    Normal,
    Insert,
    Command,
}

/// What the host has to do once a key is handled, as a mathematical value.
pub enum StepView {
    /// Go on with the next event.
    Continue,
    /// End the session.
    Quit,
    /// Write `content` to the file at `path`, then report how that went.
    Write { path: Seq<char>, content: Seq<char>, quit_after: bool },
}

/// The state of an editing session, as a mathematical value.
pub struct EditorView {
    /// The buffer: the lines of the text, top to bottom.
    pub lines: Seq<Seq<char>>,
    /// The cursor's column: an offset in characters into its line.
    pub cursor_x: int,
    /// The cursor's row: an index into `lines`.
    pub cursor_y: int,
    /// The index of the topmost line on screen.
    pub scroll: int,
    pub mode: Mode,
    /// What has been typed at the command prompt.
    pub command: Seq<char>,
    /// The path of the file the buffer is saved to, if it has one.
    pub filename: Option<Seq<char>>,
    /// Whether the buffer differs from its file, or has no file.
    pub dirty: bool,
    /// The status message.
    pub message: Seq<char>,
    pub config: Config,
}

/// The message that refuses `q` while there are unsaved changes.
pub open spec fn unsaved_message() -> Seq<char> {
    "No write since last change (add ! to override)"@
}

/// The message that confirms a save.
pub open spec fn written_message() -> Seq<char> {
    "File written."@
}

/// The message that refuses a save for want of a filename.
pub open spec fn no_filename_message() -> Seq<char> {
    "No filename. Use :w <filename> to save."@
}

/// The message for a command that the editor does not know.
pub open spec fn unknown_command_message(command: Seq<char>) -> Seq<char> {
    "Unknown command: "@ + command
}

/// The message for a file that could not be read.
pub open spec fn read_error_message(path: Seq<char>, error: Seq<char>) -> Seq<char> {
    "Error reading file "@ + path + ": "@ + error
}

/// The message for a file that could not be written.
pub open spec fn write_error_message(path: Seq<char>, error: Seq<char>) -> Seq<char> {
    "Error writing file "@ + path + ": "@ + error
}

/// Whether a key moves the cursor in Normal mode: `h`, `j`, `k`, `l` and
/// the arrows, `^` and `$`, `G` and Control with `g`, and the page keys.
pub open spec fn moves_cursor(press: KeyPress) -> bool {
    match press.key {
        Key::Char(c) => c == 'h' || c == 'j' || c == 'k' || c == 'l' || c == '^' || c == '$'
            || c == 'G' || (c == 'g' && press.ctrl),
        Key::Left | Key::Right | Key::Up | Key::Down | Key::PageUp | Key::PageDown => true,
        _ => false,
    }
}

impl EditorView {
    /// The state in which a session starts. `read` is what reading the file
    /// at `filename` gave: its content, or the reason why it could not be
    /// read. Without a filename, and where the file could not be read, the
    /// buffer holds one empty line and counts as changed.
    pub open spec fn opened(
        filename: Option<Seq<char>>,
        read: Result<Seq<char>, Seq<char>>,
        config: Config,
    ) -> EditorView {
        EditorView {
            lines: match (filename, read) {
                (Some(_), Ok(content)) => split_lines(content),
                _ => seq![Seq::<char>::empty()],
            },
            cursor_x: 0,
            cursor_y: 0,
            scroll: 0,
            mode: Mode::Normal,
            command: Seq::empty(),
            filename,
            dirty: !(filename is Some && read is Ok),
            message: match (filename, read) {
                (Some(path), Err(error)) => read_error_message(path, error),
                _ => Seq::empty(),
            },
            config,
        }
    }

    /// The buffer has a line, the cursor's row is one of its lines, and the
    /// cursor's column is within that line or just behind its end.
    pub open spec fn wf(self) -> bool {
        &&& self.lines.len() >= 1
        &&& 0 <= self.cursor_y < self.lines.len()
        &&& 0 <= self.cursor_x <= self.lines[self.cursor_y].len()
        &&& 0 <= self.scroll
    }

    /// The cursor's row is among the `rows` lines on screen.
    pub open spec fn in_view(self, rows: int) -> bool {
        self.scroll <= self.cursor_y < self.scroll + rows
    }

    /// The line the cursor is on.
    pub open spec fn line(self) -> Seq<char> {
        self.lines[self.cursor_y]
    }

    /// The state with another status message.
    pub open spec fn with_message(self, message: Seq<char>) -> EditorView {
        EditorView { message, ..self }
    }

    /// The state with the cursor at column `x` of row `y`.
    pub open spec fn with_cursor(self, x: int, y: int) -> EditorView {
        EditorView { cursor_x: x, cursor_y: y, ..self }
    }

    /// Pulls a column that lies behind the end of its line back to that end.
    pub open spec fn clamp_column(self) -> EditorView {
        if self.cursor_x > self.line().len() {
            self.with_cursor(self.line().len() as int, self.cursor_y)
        } else {
            self
        }
    }

    /// One column to the left; from the start of a line to the end of the
    /// line above; nowhere from the start of the buffer.
    pub open spec fn move_left(self) -> EditorView {
        if self.cursor_x > 0 {
            self.with_cursor(self.cursor_x - 1, self.cursor_y)
        } else if self.cursor_y > 0 {
            self.with_cursor(self.lines[self.cursor_y - 1].len() as int, self.cursor_y - 1)
        } else {
            self
        }
    }

    /// One column to the right; from the end of a line to the start of the
    /// line below; nowhere from the end of the buffer.
    pub open spec fn move_right(self) -> EditorView {
        if self.cursor_x < self.line().len() {
            self.with_cursor(self.cursor_x + 1, self.cursor_y)
        } else if self.cursor_y + 1 < self.lines.len() {
            self.with_cursor(0, self.cursor_y + 1)
        } else {
            self
        }
    }

    /// One row up, the column pulled back into the line; nowhere from the
    /// first row.
    pub open spec fn move_up(self) -> EditorView {
        if self.cursor_y > 0 {
            self.with_cursor(self.cursor_x, self.cursor_y - 1).clamp_column()
        } else {
            self
        }
    }

    /// One row down, the column pulled back into the line; nowhere from the
    /// last row.
    pub open spec fn move_down(self) -> EditorView {
        if self.cursor_y + 1 < self.lines.len() {
            self.with_cursor(self.cursor_x, self.cursor_y + 1).clamp_column()
        } else {
            self
        }
    }

    /// Scrolls just far enough to show the cursor's row among `rows` lines:
    /// up to the row where it lies above the screen, down until it is the
    /// last line on screen where it lies below.
    pub open spec fn scrolled(self, rows: int) -> EditorView {
        let top = if self.cursor_y < self.scroll {
            self.cursor_y
        } else {
            self.scroll
        };
        if self.cursor_y >= top + rows {
            EditorView { scroll: self.cursor_y - rows + 1, ..self }
        } else {
            EditorView { scroll: top, ..self }
        }
    }

    /// `rows` rows up, but not above the first row; then scrolled, and the
    /// column pulled back into the line.
    pub open spec fn page_up(self, rows: int) -> EditorView {
        let y = if self.cursor_y >= rows {
            self.cursor_y - rows
        } else {
            0
        };
        self.with_cursor(self.cursor_x, y).scrolled(rows).clamp_column()
    }

    /// `rows` rows down, but not below the last row; then scrolled, and the
    /// column pulled back into the line.
    pub open spec fn page_down(self, rows: int) -> EditorView {
        let y = if self.cursor_y + rows <= self.lines.len() - 1 {
            self.cursor_y + rows
        } else {
            self.lines.len() - 1
        };
        self.with_cursor(self.cursor_x, y).scrolled(rows).clamp_column()
    }

    /// To the end of the last line.
    pub open spec fn jump_to_end(self) -> EditorView {
        self.with_cursor(self.lines.last().len() as int, self.lines.len() - 1)
    }

    /// To the start of the first line.
    pub open spec fn jump_to_start(self) -> EditorView {
        self.with_cursor(0, 0)
    }

    /// Inserts `c` at the cursor, which moves one column to the right.
    pub open spec fn insert_char(self, c: char) -> EditorView {
        EditorView {
            lines: self.lines.update(self.cursor_y, self.line().insert(self.cursor_x, c)),
            cursor_x: self.cursor_x + 1,
            dirty: true,
            ..self
        }
    }

    /// Removes the character before the cursor. At the start of a line, the
    /// line is joined to the end of the line above, and the cursor stands
    /// where the two meet. At the start of the buffer nothing changes.
    pub open spec fn delete_before(self) -> EditorView {
        if self.cursor_x > 0 {
            EditorView {
                lines: self.lines.update(self.cursor_y, self.line().remove(self.cursor_x - 1)),
                cursor_x: self.cursor_x - 1,
                dirty: true,
                ..self
            }
        } else if self.cursor_y > 0 {
            let above = self.lines[self.cursor_y - 1];
            EditorView {
                lines: self.lines.update(self.cursor_y - 1, above + self.line()).remove(
                    self.cursor_y,
                ),
                cursor_x: above.len() as int,
                cursor_y: self.cursor_y - 1,
                dirty: true,
                ..self
            }
        } else {
            self
        }
    }

    /// Removes the character at the cursor. At the end of a line, the line
    /// below is joined to it. At the end of the buffer nothing changes.
    pub open spec fn delete_after(self) -> EditorView {
        if self.cursor_x < self.line().len() {
            EditorView {
                lines: self.lines.update(self.cursor_y, self.line().remove(self.cursor_x)),
                dirty: true,
                ..self
            }
        } else if self.cursor_y + 1 < self.lines.len() {
            let below = self.lines[self.cursor_y + 1];
            EditorView {
                lines: self.lines.update(self.cursor_y, self.line() + below).remove(
                    self.cursor_y + 1,
                ),
                dirty: true,
                ..self
            }
        } else {
            self
        }
    }

    /// Splits the cursor's line at the cursor: what follows the cursor
    /// becomes a new line just below, and the cursor moves to its start.
    pub open spec fn split_line(self) -> EditorView {
        EditorView {
            lines: self.lines.update(self.cursor_y, self.line().take(self.cursor_x)).insert(
                self.cursor_y + 1,
                self.line().skip(self.cursor_x),
            ),
            cursor_x: 0,
            cursor_y: self.cursor_y + 1,
            dirty: true,
            ..self
        }
    }

    /// Leaves the command prompt or Insert mode for Normal mode.
    pub open spec fn to_normal(self) -> EditorView {
        EditorView { mode: Mode::Normal, command: Seq::empty(), ..self }
    }

    /// What a character key does in Normal mode, before scrolling.
    pub open spec fn normal_char(self, c: char, ctrl: bool) -> EditorView {
        if c == 'i' {
            EditorView { mode: Mode::Insert, ..self }
        } else if c == 'h' {
            self.move_left()
        } else if c == 'l' {
            self.move_right()
        } else if c == 'k' {
            self.move_up()
        } else if c == 'j' {
            self.move_down()
        } else if c == '^' {
            self.with_cursor(0, self.cursor_y)
        } else if c == '$' {
            self.with_cursor(self.line().len() as int, self.cursor_y)
        } else if c == 'G' {
            self.jump_to_end()
        } else if c == 'g' && ctrl {
            self.jump_to_start()
        } else if c == ':' {
            EditorView { mode: Mode::Command, command: Seq::empty(), ..self }
        } else {
            self
        }
    }

    /// What a key does in Normal mode, on a screen with `rows` lines of
    /// text: the status message is cleared and the key acts. After a key
    /// that moves the cursor the screen scrolls to it; any other key leaves
    /// the scroll offset as it is.
    pub open spec fn normal_key(self, press: KeyPress, rows: int) -> EditorView {
        let s = self.with_message(Seq::empty());
        let t = match press.key {
            Key::Char(c) => s.normal_char(c, press.ctrl),
            Key::Left => s.move_left(),
            Key::Right => s.move_right(),
            Key::Up => s.move_up(),
            Key::Down => s.move_down(),
            Key::PageUp => s.page_up(rows),
            Key::PageDown => s.page_down(rows),
            Key::Esc => s.to_normal(),
            _ => s,
        };
        if moves_cursor(press) {
            t.scrolled(rows)
        } else {
            t
        }
    }

    /// Whether the key scrolls the screen to the cursor: every key in
    /// Insert mode does, and in Normal mode every key that moves the cursor.
    pub open spec fn scrolls_on(self, press: KeyPress) -> bool {
        self.mode == Mode::Insert || (self.mode == Mode::Normal && moves_cursor(press))
    }

    /// What a key does in Insert mode, on a screen with `rows` lines of
    /// text: the status message is cleared, the key acts, and the screen
    /// scrolls to the cursor.
    pub open spec fn insert_key(self, press: KeyPress, rows: int) -> EditorView {
        let s = self.with_message(Seq::empty());
        let t = match press.key {
            Key::Char(c) => s.insert_char(c),
            Key::Backspace => s.delete_before(),
            Key::Delete => s.delete_after(),
            Key::Enter => s.split_line(),
            Key::Left => s.move_left(),
            Key::Right => s.move_right(),
            Key::Up => s.move_up(),
            Key::Down => s.move_down(),
            Key::Esc => EditorView { mode: Mode::Normal, ..s }.clamp_column(),
            _ => s,
        };
        t.scrolled(rows)
    }

    /// What saving does: with a filename, the host is told to write the
    /// lines, joined by line feeds, to it; without one, only the status
    /// message changes.
    pub open spec fn save(self, quit_after: bool) -> (EditorView, StepView) {
        match self.filename {
            Some(path) => (
                self,
                StepView::Write { path, content: join_lines(self.lines), quit_after },
            ),
            None => (self.with_message(no_filename_message()), StepView::Continue),
        }
    }

    /// What the command `command` does.
    pub open spec fn execute(self, command: Seq<char>) -> (EditorView, StepView) {
        if command == "q"@ {
            if self.dirty {
                (self.with_message(unsaved_message()), StepView::Continue)
            } else {
                (self, StepView::Quit)
            }
        } else if command == "q!"@ {
            (self, StepView::Quit)
        } else if command == "w"@ {
            self.save(false)
        } else if command == "wq"@ {
            self.save(true)
        } else {
            (self.with_message(unknown_command_message(command)), StepView::Continue)
        }
    }

    /// What a key does in Command mode: the status message is cleared, and
    /// the key edits the prompt, runs what was typed, or leaves the prompt.
    pub open spec fn command_key(self, press: KeyPress) -> (EditorView, StepView) {
        let s = self.with_message(Seq::empty());
        match press.key {
            Key::Char(c) => (EditorView { command: s.command.push(c), ..s }, StepView::Continue),
            Key::Backspace => if s.command.len() > 0 {
                (EditorView { command: s.command.drop_last(), ..s }, StepView::Continue)
            } else {
                (s, StepView::Continue)
            },
            Key::Enter => {
                let (t, step) = s.execute(trimmed(s.command));
                (t.to_normal(), step)
            },
            Key::Esc => (s.to_normal(), StepView::Continue),
            _ => (s, StepView::Continue),
        }
    }

    /// What a key does, on a terminal with `height` rows.
    pub open spec fn key_step(self, press: KeyPress, height: u16) -> (EditorView, StepView) {
        let rows = self.config.text_rows(height) as int;
        match self.mode {
            Mode::Normal => (self.normal_key(press, rows), StepView::Continue),
            Mode::Insert => (self.insert_key(press, rows), StepView::Continue),
            Mode::Command => self.command_key(press),
        }
    }

    /// What the end of a write does, and whether the session goes on. A
    /// write that succeeded leaves the buffer clean, and ends the session
    /// where that was asked for; one that failed only leaves a message.
    pub open spec fn write_finished(self, outcome: Result<(), Seq<char>>, quit_after: bool) -> (
        EditorView,
        bool,
    ) {
        match self.filename {
            Some(path) => match outcome {
                Ok(_) => if quit_after {
                    (EditorView { dirty: false, ..self }, false)
                } else {
                    (EditorView { dirty: false, message: written_message(), ..self }, true)
                },
                Err(error) => (self.with_message(write_error_message(path, error)), true),
            },
            None => (self.with_message(no_filename_message()), true),
        }
    }

    /// The state after the keys `keys`, one after the other, on a terminal
    /// with `height` rows.
    pub open spec fn after_keys(self, keys: Seq<KeyPress>, height: u16) -> EditorView
        decreases keys.len(),
    {
        if keys.len() == 0 {
            self
        } else {
            self.after_keys(keys.drop_last(), height).key_step(keys.last(), height).0
        }
    }
}

} // verus!
