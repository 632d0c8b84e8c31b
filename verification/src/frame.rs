//! What a frame is: the writes that draw the state of a session on a
//! terminal of a given size, in the order in which they are made.

use crate::color::Color;
use crate::state::{EditorView, Mode};
use vstd::prelude::*;

verus! {

/// The shape of the terminal's cursor.
#[derive(Clone, Copy, Debug, PartialEq, Eq, Structural)]
pub enum CursorShape {
    Block,
    Bar,
}

/// One write to the terminal.
#[derive(Debug, PartialEq, Eq)]
pub enum DrawOp {
    /// Clear the whole screen.
    Clear,
    /// Use this foreground color from here on.
    SetForeground(Color),
    /// Use this background color from here on.
    SetBackground(Color),
    /// Use as background the color that lies `column / span` of the way
    /// from `start` to `end`. Both are `Rgb`, and `0 < column < span`.
    Blend { start: Color, end: Color, column: u16, span: u16 },
    /// Go back to the terminal's own colors.
    ResetColor,
    /// Move the cursor to column `x` of row `y`.
    MoveTo { x: u16, y: u16 },
    /// Write text at the cursor.
    Write(String),
    /// Give the cursor this shape.
    SetCursorShape(CursorShape),
    /// Send everything written so far to the screen.
    Flush,
}

/// One write to the terminal, as a mathematical value.
pub enum DrawOpView {
    Clear,
    SetForeground(Color),
    SetBackground(Color),
    Blend { start: Color, end: Color, column: u16, span: u16 },
    ResetColor,
    MoveTo { x: u16, y: u16 },
    Write(Seq<char>),
    SetCursorShape(CursorShape),
    Flush,
}

impl View for DrawOp {
    type V = DrawOpView;

    open spec fn view(&self) -> DrawOpView {
        match *self {
            DrawOp::Clear => DrawOpView::Clear,
            DrawOp::SetForeground(c) => DrawOpView::SetForeground(c),
            DrawOp::SetBackground(c) => DrawOpView::SetBackground(c),
            DrawOp::Blend { start, end, column, span } => DrawOpView::Blend {
                start,
                end,
                column,
                span,
            },
            DrawOp::ResetColor => DrawOpView::ResetColor,
            DrawOp::MoveTo { x, y } => DrawOpView::MoveTo { x, y },
            DrawOp::Write(text) => DrawOpView::Write(text@),
            DrawOp::SetCursorShape(shape) => DrawOpView::SetCursorShape(shape),
            DrawOp::Flush => DrawOpView::Flush,
        }
    }
}

/// The writes of a plan, as mathematical values.
pub open spec fn plan_view(plan: Seq<DrawOp>) -> Seq<DrawOpView> {
    Seq::new(plan.len(), |i: int| plan[i]@)
}

/// `text`, cut off after `limit` characters.
pub open spec fn clip(text: Seq<char>, limit: int) -> Seq<char> {
    if text.len() > limit {
        text.take(limit)
    } else {
        text
    }
}

/// `count` times the character `c`.
pub open spec fn repeat(c: char, count: int) -> Seq<char> {
    Seq::new(count as nat, |i: int| c)
}

/// `fill` between `left` and `right`, `inner` times.
pub open spec fn framed(left: char, fill: char, right: char, inner: int) -> Seq<char> {
    seq![left] + repeat(fill, inner) + seq![right]
}

/// `n`, or zero where `n` is negative.
pub open spec fn at_least_zero(n: int) -> int {
    if n < 0 {
        0
    } else {
        n
    }
}

/// `n` as a screen coordinate: its low sixteen bits.
pub open spec fn low_bits(n: int) -> u16 {
    (n % 0x1_0000) as u16
}

/// `n` as a screen coordinate: the largest coordinate where `n` is larger.
pub open spec fn at_most_u16(n: int) -> u16 {
    if n > u16::MAX {
        u16::MAX
    } else {
        n as u16
    }
}

/// The write that selects `color` as foreground, if there is a color.
pub open spec fn foreground(color: Option<Color>) -> Seq<DrawOpView> {
    match color {
        Some(c) => seq![DrawOpView::SetForeground(c)],
        None => Seq::empty(),
    }
}

/// The write that selects `color` as background, if there is a color.
pub open spec fn background(color: Option<Color>) -> Seq<DrawOpView> {
    match color {
        Some(c) => seq![DrawOpView::SetBackground(c)],
        None => Seq::empty(),
    }
}

/// The writes that put `text` at column `x` of row `y`.
pub open spec fn write_at(x: u16, y: u16, text: Seq<char>) -> Seq<DrawOpView> {
    seq![DrawOpView::MoveTo { x, y }, DrawOpView::Write(text)]
}

/// The writes that put `text` at column `x` of row `y` in the colors `fg`
/// on `bg`, as far as these are set, and go back to the terminal's own
/// colors.
pub open spec fn colored_text(
    fg: Option<Color>,
    bg: Option<Color>,
    x: u16,
    y: u16,
    text: Seq<char>,
) -> Seq<DrawOpView> {
    foreground(fg) + background(bg) + write_at(x, y, text) + seq![DrawOpView::ResetColor]
}

/// How many lines of the buffer are on a screen with `rows` lines of text.
pub open spec fn visible_count(line_count: int, scroll: int, rows: int) -> int {
    if line_count - scroll < rows {
        at_least_zero(line_count - scroll)
    } else {
        rows
    }
}

/// The writes that draw the first `count` lines on screen: line
/// `scroll + i` on row `i`, cut off at the terminal's width.
pub open spec fn text_area(lines: Seq<Seq<char>>, scroll: int, width: u16, count: int) -> Seq<
    DrawOpView,
>
    decreases count,
{
    if count <= 0 {
        Seq::empty()
    } else {
        text_area(lines, scroll, width, count - 1) + write_at(
            0,
            (count - 1) as u16,
            clip(lines[scroll + count - 1], width as int),
        )
    }
}

/// The color as an `Rgb`: itself where it is one, black otherwise.
pub open spec fn as_rgb(color: Color) -> Color {
    Color::Rgb { r: color.channels().0, g: color.channels().1, b: color.channels().2 }
}

/// The write that selects the background of the mode bar at `column`.
/// With both ends of the gradient set, the color runs from `start` at
/// column zero to `end` at column `span`, and is `end` from there on and
/// where `span` is zero. With one end missing it is `start`, or the
/// terminal's own.
pub open spec fn bar_background(start: Option<Color>, end: Option<Color>, column: u16, span: u16)
    -> DrawOpView {
    match (start, end) {
        (Some(a), Some(b)) => if span == 0 || column >= span {
            DrawOpView::SetBackground(as_rgb(b))
        } else if column == 0 {
            DrawOpView::SetBackground(as_rgb(a))
        } else {
            DrawOpView::Blend { start: as_rgb(a), end: as_rgb(b), column, span }
        },
        (Some(a), None) => DrawOpView::SetBackground(a),
        (None, _) => DrawOpView::SetBackground(Color::Reset),
    }
}

/// The writes that fill the first `count` cells of row `y` of the mode bar.
pub open spec fn bar_row(start: Option<Color>, end: Option<Color>, span: u16, y: u16, count: int)
    -> Seq<DrawOpView>
    decreases count,
{
    if count <= 0 {
        Seq::empty()
    } else {
        bar_row(start, end, span, y, count - 1) + seq![
            bar_background(start, end, (count - 1) as u16, span),
            DrawOpView::MoveTo { x: (count - 1) as u16, y },
            DrawOpView::Write(seq![' ']),
        ]
    }
}

/// The writes that fill the first `count` rows of the mode bar, which
/// begins at row `top` and is `width` cells wide.
pub open spec fn bar_fill(
    start: Option<Color>,
    end: Option<Color>,
    span: u16,
    width: u16,
    top: u16,
    count: int,
) -> Seq<DrawOpView>
    decreases count,
{
    if count <= 0 {
        Seq::empty()
    } else {
        bar_fill(start, end, span, width, top, count - 1) + bar_row(
            start,
            end,
            span,
            (top + count - 1) as u16,
            width as int,
        )
    }
}

/// `parts` with ` | ` between each two neighbours.
pub open spec fn join_parts(parts: Seq<Seq<char>>) -> Seq<char>
    decreases parts.len(),
{
    if parts.len() == 0 {
        Seq::empty()
    } else if parts.len() == 1 {
        parts[0]
    } else {
        join_parts(parts.drop_last()) + " | "@ + parts.last()
    }
}

/// The name of a mode on the status line.
pub open spec fn mode_name(mode: Mode) -> Seq<char> {
    match mode {
        Mode::Normal => "NORMAL"@,
        Mode::Insert => "INSERT"@,
        Mode::Command => "COMMAND"@,
    }
}

/// `flag`, or true where it is not set.
pub open spec fn shown(flag: Option<bool>) -> bool {
    match flag {
        Some(b) => b,
        None => true,
    }
}

/// The width of the command box where none is configured: six tenths of
/// the terminal's width, but not under 40 and not over 80.
pub open spec fn default_box_width(width: u16) -> u16 {
    let scaled = width as int * 6 / 10;
    if scaled < 40 {
        40
    } else if scaled > 80 {
        80
    } else {
        scaled as u16
    }
}

/// The writes that fill the first `count` rows of a box with blanks. The
/// box begins at column `left` of row `top` and is `width` cells wide.
pub open spec fn box_fill(left: u16, top: u16, width: u16, count: int) -> Seq<DrawOpView>
    decreases count,
{
    if count <= 0 {
        Seq::empty()
    } else {
        box_fill(left, top, width, count - 1) + write_at(
            left,
            (top + count - 1) as u16,
            repeat(' ', width as int),
        )
    }
}

/// The writes that draw the sides of a box on `count` rows from row
/// `first` on.
pub open spec fn box_sides(left: u16, first: u16, inner: int, count: int) -> Seq<DrawOpView>
    decreases count,
{
    if count <= 0 {
        Seq::empty()
    } else {
        box_sides(left, first, inner, count - 1) + write_at(
            left,
            (first + count - 1) as u16,
            framed('│', ' ', '│', inner),
        )
    }
}

/// The writes that draw the border of a box between row `top` and row
/// `last`: the top edge, the sides on the rows between, and the bottom edge.
pub open spec fn box_border(left: u16, top: u16, last: u16, inner: int) -> Seq<DrawOpView> {
    write_at(left, top, framed('┌', '─', '┐', inner)) + box_sides(
        left,
        (top + 1) as u16,
        inner,
        last - top - 1,
    ) + write_at(left, last, framed('└', '─', '┘', inner))
}

impl EditorView {
    /// The parts of the status line: the mode, the filename or a
    /// placeholder, and a mark for unsaved changes, each unless the
    /// configuration hides it.
    pub open spec fn status_parts(self) -> Seq<Seq<char>> {
        let bar = self.config.mode_bar;
        let mode = if shown(bar.show_mode) {
            seq![mode_name(self.mode)]
        } else {
            Seq::empty()
        };
        let name = if shown(bar.show_filename) {
            seq![
                match self.filename {
                    Some(path) => path,
                    None => "[No Name]"@,
                },
            ]
        } else {
            Seq::empty()
        };
        let changed = if shown(bar.show_dirty_indicator) && self.dirty {
            seq!["[Modified]"@]
        } else {
            Seq::empty()
        };
        mode + name + changed
    }

    /// The writes that draw the mode bar: its background, a rule on its
    /// first row and the status line on its last.
    pub open spec fn mode_bar(self, width: u16, height: u16) -> Seq<DrawOpView> {
        let c = self.config;
        let top = c.text_rows(height);
        let rows = c.mode_bar.rows();
        let start = Color::first_resolved(c.mode_bar.primary_color, c.colors.status_bar_background);
        let end = Color::resolved(c.mode_bar.secondary_color);
        let text = Color::first_resolved(c.mode_bar.text_color, c.colors.status_bar_text);
        let span = match c.mode_bar.width {
            Some(w) => w,
            None => width,
        };
        bar_fill(start, end, span, width, top, rows as int) + seq![DrawOpView::ResetColor]
            + colored_text(text, start, 0, top, repeat('─', width as int)) + colored_text(
            text,
            start,
            0,
            at_least_zero(top + rows - 1) as u16,
            join_parts(self.status_parts()),
        )
    }

    /// The writes that draw the status message above the mode bar, if
    /// there is a message and a row above the bar.
    pub open spec fn message_line(self, height: u16) -> Seq<DrawOpView> {
        let rows = self.config.text_rows(height);
        if self.message.len() > 0 && rows > 0 {
            colored_text(
                Color::resolved(self.config.colors.message_text),
                None,
                0,
                (rows - 1) as u16,
                self.message,
            )
        } else {
            Seq::empty()
        }
    }

    /// The writes that place the cursor in the text: at its column, and at
    /// its row counted from the topmost line on screen.
    pub open spec fn text_cursor(self, shape: CursorShape) -> Seq<DrawOpView> {
        seq![
            DrawOpView::SetCursorShape(shape),
            DrawOpView::MoveTo {
                x: low_bits(self.cursor_x),
                y: low_bits(at_least_zero(self.cursor_y - self.scroll)),
            },
        ]
    }

    /// The width of the command box on a terminal of `width` columns.
    pub open spec fn box_width(self, width: u16) -> u16 {
        match self.config.command_box.width {
            Some(w) => w,
            None => default_box_width(width),
        }
    }

    /// The height of the command box: five rows unless configured.
    pub open spec fn box_height(self) -> u16 {
        match self.config.command_box.height {
            Some(h) => h,
            None => 5,
        }
    }

    /// The leftmost column of the command box, which is centered.
    pub open spec fn box_left(self, width: u16) -> u16 {
        at_least_zero(width / 2 - self.box_width(width) / 2) as u16
    }

    /// The topmost row of the command box, which is centered.
    pub open spec fn box_top(self, height: u16) -> u16 {
        at_least_zero(height / 2 - self.box_height() / 2) as u16
    }

    /// The width of the command box between its borders.
    pub open spec fn box_inner(self, width: u16) -> int {
        at_least_zero(self.box_width(width) - 2)
    }

    /// The color that fills the command box.
    pub open spec fn box_fill_color(self) -> Option<Color> {
        Color::first_resolved(
            self.config.command_box.primary_color,
            self.config.colors.command_box_background,
        )
    }

    /// The color of the text in the command box.
    pub open spec fn box_text_color(self) -> Option<Color> {
        Color::first_resolved(
            self.config.command_box.text_color,
            self.config.colors.command_box_text,
        )
    }

    /// The writes that fill the command box and draw its border.
    pub open spec fn box_frame(self, width: u16, height: u16) -> Seq<DrawOpView> {
        let left = self.box_left(width);
        let top = self.box_top(height);
        let inner = self.box_inner(width);
        let last = at_least_zero(top + self.box_height() - 1) as u16;
        let border = Color::first_resolved(
            self.config.command_box.secondary_color,
            self.config.colors.command_box_border,
        );
        background(self.box_fill_color()) + foreground(self.box_text_color()) + box_fill(
            left,
            top,
            self.box_width(width),
            self.box_height() as int,
        ) + foreground(border) + box_border(left, top, last, inner) + seq![DrawOpView::ResetColor]
    }

    /// The label of the command box, cut off at the box's inner width.
    pub open spec fn box_label(self, width: u16) -> Seq<char> {
        clip(
            match self.config.command_box.text {
                Some(t) => t@,
                None => " Command box "@,
            },
            self.box_inner(width),
        )
    }

    /// The writes that draw the status message in the command box, below
    /// the prompt, if there is a message.
    pub open spec fn box_message(self, width: u16, height: u16) -> Seq<DrawOpView> {
        if self.message.len() > 0 {
            colored_text(
                Color::resolved(self.config.colors.message_text),
                None,
                (self.box_left(width) + 1) as u16,
                (self.box_top(height) + 3) as u16,
                clip(self.message, self.box_inner(width)),
            )
        } else {
            Seq::empty()
        }
    }

    /// The writes that draw the text in the command box: the label,
    /// centered on the top border, the prompt, which is `:` and what was
    /// typed, and the status message; each cut off at the box's inner width.
    pub open spec fn box_texts(self, width: u16, height: u16) -> Seq<DrawOpView> {
        let left = self.box_left(width);
        let top = self.box_top(height);
        let label = self.box_label(width);
        let label_x = (left + at_least_zero(self.box_width(width) / 2 - label.len() / 2)) as u16;
        background(self.box_fill_color()) + foreground(self.box_text_color()) + write_at(
            label_x,
            top,
            label,
        ) + write_at(
            (left + 1) as u16,
            (top + 2) as u16,
            clip(seq![':'] + self.command, self.box_inner(width)),
        ) + self.box_message(width, height) + seq![DrawOpView::ResetColor]
    }

    /// The writes that place the cursor at the prompt, behind what was
    /// typed.
    pub open spec fn prompt_cursor(self, width: u16, height: u16) -> Seq<DrawOpView> {
        seq![
            DrawOpView::SetCursorShape(CursorShape::Bar),
            DrawOpView::MoveTo {
                x: at_most_u16(self.box_left(width) + 1 + low_bits(self.command.len() as int)),
                y: (self.box_top(height) + 2) as u16,
            },
        ]
    }

    /// The writes that draw the command box in the middle of the screen,
    /// with its border, its label, the prompt and the status message, and
    /// place the cursor behind what was typed.
    pub open spec fn command_box(self, width: u16, height: u16) -> Seq<DrawOpView> {
        self.box_frame(width, height) + self.box_texts(width, height) + self.prompt_cursor(
            width,
            height,
        )
    }

    /// What lies over the text: in Command mode the command box, otherwise
    /// the status message and the cursor, a block in Normal mode and a bar
    /// in Insert mode.
    pub open spec fn overlay(self, width: u16, height: u16) -> Seq<DrawOpView> {
        match self.mode {
            Mode::Command => self.command_box(width, height),
            Mode::Normal => self.message_line(height) + self.text_cursor(CursorShape::Block),
            Mode::Insert => self.message_line(height) + self.text_cursor(CursorShape::Bar),
        }
    }

    /// The writes that draw one frame on a terminal of `width` columns and
    /// `height` rows: the lines on screen, the mode bar, what lies over
    /// the text, and the cursor.
    pub open spec fn frame(self, width: u16, height: u16) -> Seq<DrawOpView> {
        let c = self.config;
        let rows = c.text_rows(height) as int;
        seq![DrawOpView::Clear] + background(Color::resolved(c.colors.background)) + foreground(
            Color::resolved(c.colors.text),
        ) + text_area(
            self.lines,
            self.scroll,
            width,
            visible_count(self.lines.len() as int, self.scroll, rows),
        ) + seq![DrawOpView::ResetColor] + self.mode_bar(width, height) + self.overlay(
            width,
            height,
        ) + seq![DrawOpView::Flush]
    }
}

} // verus!
