//! The render planner: it works out the writes of a frame from the state
//! of a session and the size of the terminal.

use crate::color::{first_color, parse_color, Color};
use crate::editor::Editor;
use crate::frame::{
    as_rgb, at_least_zero, background, bar_background, bar_fill, bar_row, box_border, box_fill,
    box_sides, clip, colored_text, default_box_width, foreground, framed, join_parts, low_bits,
    mode_name, plan_view, repeat, shown, text_area, visible_count, write_at, DrawOpView,
};
use crate::state::{EditorView, Mode};
use crate::text::{chars_of, string_of, texts};
use vstd::prelude::*;

pub use crate::frame::{CursorShape, DrawOp};

verus! {

/// Adds one write to the end of a plan.
fn emit(plan: &mut Vec<DrawOp>, op: DrawOp)
    ensures
        plan_view(final(plan)@) == plan_view(old(plan)@).push(op@),
{
    plan.push(op);
    assert(plan_view(plan@) =~= plan_view(old(plan)@).push(op@));
}

/// Adds the write that selects a foreground color, if there is a color.
fn emit_foreground(plan: &mut Vec<DrawOp>, color: Option<Color>)
    ensures
        plan_view(final(plan)@) == plan_view(old(plan)@) + foreground(color),
{
    match color {
        Some(c) => emit(plan, DrawOp::SetForeground(c)),
        None => {},
    }
}

/// Adds the write that selects a background color, if there is a color.
fn emit_background(plan: &mut Vec<DrawOp>, color: Option<Color>)
    ensures
        plan_view(final(plan)@) == plan_view(old(plan)@) + background(color),
{
    match color {
        Some(c) => emit(plan, DrawOp::SetBackground(c)),
        None => {},
    }
}

/// Adds the writes that put `text` at column `x` of row `y`.
fn emit_text(plan: &mut Vec<DrawOp>, x: u16, y: u16, text: String)
    ensures
        plan_view(final(plan)@) == plan_view(old(plan)@) + write_at(x, y, text@),
{
    emit(plan, DrawOp::MoveTo { x, y });
    emit(plan, DrawOp::Write(text));
}

/// Adds the writes that put `text` at column `x` of row `y` in the colors
/// `fg` on `bg`.
fn emit_colored_text(
    plan: &mut Vec<DrawOp>,
    fg: Option<Color>,
    bg: Option<Color>,
    x: u16,
    y: u16,
    text: String,
)
    ensures
        plan_view(final(plan)@) == plan_view(old(plan)@) + colored_text(fg, bg, x, y, text@),
{
    emit_foreground(plan, fg);
    emit_background(plan, bg);
    emit_text(plan, x, y, text);
    emit(plan, DrawOp::ResetColor);
}

/// The first `limit` characters of `chars`, or all of them where there are
/// fewer.
fn clipped(chars: &Vec<char>, limit: usize) -> (text: String)
    ensures
        text@ == clip(chars@, limit as int),
{
    let end = if chars.len() > limit {
        limit
    } else {
        chars.len()
    };
    let mut text = String::new();
    let mut i: usize = 0;
    while i < end
        invariant
            i <= end <= chars.len(),
            text@ == chars@.take(i as int),
        decreases end - i,
    {
        text.push(chars[i]);
        i += 1;
    }
    assert(chars@.take(chars.len() as int) == chars@);
    text
}

/// Adds `count` times the character `c` to the end of `text`.
fn push_repeated(text: &mut String, c: char, count: usize)
    ensures
        final(text)@ == old(text)@ + repeat(c, count as int),
{
    let mut i: usize = 0;
    while i < count
        invariant
            i <= count,
            text@ == old(text)@ + repeat(c, i as int),
        decreases count - i,
    {
        text.push(c);
        i += 1;
    }
}

/// `count` times the character `c`.
fn repeated(c: char, count: usize) -> (text: String)
    ensures
        text@ == repeat(c, count as int),
{
    let mut text = String::new();
    push_repeated(&mut text, c, count);
    text
}

/// `fill` between `left` and `right`, `inner` times.
fn framed_text(left: char, fill: char, right: char, inner: usize) -> (text: String)
    ensures
        text@ == framed(left, fill, right, inner as int),
{
    let mut text = String::new();
    text.push(left);
    push_repeated(&mut text, fill, inner);
    text.push(right);
    text
}

/// Adds the writes that draw the lines on screen.
fn emit_text_area(editor: &Editor, plan: &mut Vec<DrawOp>, width: u16, rows: u16)
    ensures
        plan_view(final(plan)@) == plan_view(old(plan)@) + text_area(
            editor@.lines,
            editor@.scroll,
            width,
            visible_count(editor@.lines.len() as int, editor@.scroll, rows as int),
        ),
{
    let count = editor.line_count();
    let scroll = editor.scroll_offset();
    let visible: u16 = if scroll >= count {
        0
    } else if count - scroll < rows as usize {
        (count - scroll) as u16
    } else {
        rows
    };
    let ghost before = plan_view(plan@);
    let mut row: u16 = 0;
    while row < visible
        invariant
            row <= visible,
            visible > 0 ==> scroll + visible <= count,
            count == editor@.lines.len(),
            scroll == editor@.scroll,
            plan_view(plan@) == before + text_area(
                editor@.lines,
                editor@.scroll,
                width,
                row as int,
            ),
        decreases visible - row,
    {
        let text = clipped(editor.line_chars(scroll + row as usize), width as usize);
        emit_text(plan, 0, row, text);
        row += 1;
    }
}

/// The color as an `Rgb`: itself where it is one, black otherwise.
fn rgb_of(color: Color) -> (rgb: Color)
    ensures
        rgb == as_rgb(color),
{
    match color {
        Color::Rgb { r, g, b } => Color::Rgb { r, g, b },
        _ => Color::Rgb { r: 0, g: 0, b: 0 },
    }
}

/// The write that selects the background of the mode bar at `column`.
fn bar_background_op(start: Option<Color>, end: Option<Color>, column: u16, span: u16) -> (op:
    DrawOp)
    ensures
        op@ == bar_background(start, end, column, span),
{
    match (start, end) {
        (Some(a), Some(b)) => if span == 0 || column >= span {
            DrawOp::SetBackground(rgb_of(b))
        } else if column == 0 {
            DrawOp::SetBackground(rgb_of(a))
        } else {
            DrawOp::Blend { start: rgb_of(a), end: rgb_of(b), column, span }
        },
        (Some(a), None) => DrawOp::SetBackground(a),
        (None, _) => DrawOp::SetBackground(Color::Reset),
    }
}

/// Adds the writes that fill row `y` of the mode bar.
fn emit_bar_row(
    plan: &mut Vec<DrawOp>,
    start: Option<Color>,
    end: Option<Color>,
    span: u16,
    y: u16,
    width: u16,
)
    ensures
        plan_view(final(plan)@) == plan_view(old(plan)@) + bar_row(
            start,
            end,
            span,
            y,
            width as int,
        ),
{
    let ghost before = plan_view(plan@);
    let mut x: u16 = 0;
    while x < width
        invariant
            x <= width,
            plan_view(plan@) == before + bar_row(start, end, span, y, x as int),
        decreases width - x,
    {
        let ghost done = plan_view(plan@);
        emit(plan, bar_background_op(start, end, x, span));
        emit(plan, DrawOp::MoveTo { x, y });
        let mut blank = String::new();
        blank.push(' ');
        assert(blank@ == seq![' ']);
        emit(plan, DrawOp::Write(blank));
        assert(plan_view(plan@) == done + seq![
            bar_background(start, end, x, span),
            DrawOpView::MoveTo { x, y },
            DrawOpView::Write(seq![' ']),
        ]);
        x += 1;
    }
}

/// Adds the writes that fill the mode bar, `rows` rows from row `top` on.
fn emit_bar_fill(
    plan: &mut Vec<DrawOp>,
    start: Option<Color>,
    end: Option<Color>,
    span: u16,
    width: u16,
    top: u16,
    rows: u16,
)
    requires
        top + rows <= u16::MAX,
    ensures
        plan_view(final(plan)@) == plan_view(old(plan)@) + bar_fill(
            start,
            end,
            span,
            width,
            top,
            rows as int,
        ),
{
    let ghost before = plan_view(plan@);
    let mut row: u16 = 0;
    while row < rows
        invariant
            row <= rows,
            top + rows <= u16::MAX,
            plan_view(plan@) == before + bar_fill(start, end, span, width, top, row as int),
        decreases rows - row,
    {
        emit_bar_row(plan, start, end, span, top + row, width);
        row += 1;
    }
}

/// `parts` with ` | ` between each two neighbours.
fn joined(parts: &Vec<String>) -> (text: String)
    ensures
        text@ == join_parts(texts(parts@)),
{
    let mut text = String::new();
    let mut i: usize = 0;
    while i < parts.len()
        invariant
            i <= parts.len(),
            text@ == join_parts(texts(parts@).take(i as int)),
        decreases parts.len() - i,
    {
        let ghost head = texts(parts@).take(i + 1);
        assert(head.drop_last() == texts(parts@).take(i as int));
        assert(head.last() == parts@[i as int]@);
        if i > 0 {
            text.append(" | ");
        }
        text.append(parts[i].as_str());
        assert(text@ == join_parts(head));
        i += 1;
    }
    assert(texts(parts@).take(i as int) == texts(parts@));
    text
}

/// The name of a mode on the status line.
fn mode_label(mode: Mode) -> (name: String)
    ensures
        name@ == mode_name(mode),
{
    match mode {
        Mode::Normal => "NORMAL".to_owned(),
        Mode::Insert => "INSERT".to_owned(),
        Mode::Command => "COMMAND".to_owned(),
    }
}

/// `flag`, or true where it is not set.
fn is_shown(flag: &Option<bool>) -> (b: bool)
    ensures
        b == shown(*flag),
{
    match flag {
        Some(b) => *b,
        None => true,
    }
}

/// The text of the status line.
fn status_text(editor: &Editor) -> (text: String)
    ensures
        text@ == join_parts(editor@.status_parts()),
{
    let bar = &editor.config().mode_bar;
    let mut parts: Vec<String> = Vec::new();
    if is_shown(&bar.show_mode) {
        parts.push(mode_label(editor.mode()));
    }
    if is_shown(&bar.show_filename) {
        match editor.filename() {
            Some(path) => parts.push(path.clone()),
            None => parts.push("[No Name]".to_owned()),
        }
    }
    if is_shown(&bar.show_dirty_indicator) && editor.is_dirty() {
        parts.push("[Modified]".to_owned());
    }
    assert(texts(parts@) == editor@.status_parts());
    joined(&parts)
}

/// `value`, or `default` where it is not set.
fn or_default(value: &Option<u16>, default: u16) -> (n: u16)
    ensures
        n == match *value {
            Some(v) => v,
            None => default,
        },
{
    match value {
        Some(v) => *v,
        None => default,
    }
}

/// Adds the writes that draw the mode bar.
fn emit_mode_bar(editor: &Editor, plan: &mut Vec<DrawOp>, width: u16, height: u16)
    ensures
        plan_view(final(plan)@) == plan_view(old(plan)@) + editor@.mode_bar(width, height),
{
    let config = editor.config();
    let top = config.text_area_height(height);
    let rows = or_default(&config.mode_bar.height, 2);
    let start = first_color(&config.mode_bar.primary_color, &config.colors.status_bar_background);
    let end = parse_color(&config.mode_bar.secondary_color);
    let text = first_color(&config.mode_bar.text_color, &config.colors.status_bar_text);
    let span = or_default(&config.mode_bar.width, width);
    let status_row: u16 = if top as u32 + rows as u32 >= 1 {
        (top as u32 + rows as u32 - 1) as u16
    } else {
        0
    };
    let ghost before = plan_view(plan@);
    let ghost fill = bar_fill(start, end, span, width, top, rows as int);
    let ghost rule = colored_text(text, start, 0, top, repeat('─', width as int));
    let ghost status = colored_text(text, start, 0, status_row, join_parts(editor@.status_parts()));
    emit_bar_fill(plan, start, end, span, width, top, rows);
    emit(plan, DrawOp::ResetColor);
    emit_colored_text(plan, text, start, 0, top, repeated('─', width as usize));
    emit_colored_text(plan, text, start, 0, status_row, status_text(editor));
    assert(plan_view(plan@) == before + (fill + seq![DrawOpView::ResetColor] + rule + status));
}

/// The width of the command box where none is configured: six tenths of
/// the terminal's width, but not under 40 and not over 80.
pub fn command_box_width(width: u16) -> (box_width: u16)
    ensures
        box_width == default_box_width(width),
{
    let scaled: u32 = width as u32 * 6 / 10;
    if scaled < 40 {
        40
    } else if scaled > 80 {
        80
    } else {
        scaled as u16
    }
}

/// `a - b`, or zero where `b` is larger.
fn minus_or_zero(a: u16, b: u16) -> (n: u16)
    ensures
        n == at_least_zero(a - b),
{
    if a >= b {
        a - b
    } else {
        0
    }
}

/// The low sixteen bits of `n`.
fn low_bits_of(n: usize) -> (low: u16)
    ensures
        low == low_bits(n as int),
{
    (n % 0x1_0000) as u16
}

/// Where the command box lies.
struct BoxLayout {
    left: u16,
    top: u16,
    width: u16,
    height: u16,
    inner: u16,
    fill: Option<Color>,
    text: Option<Color>,
}

impl BoxLayout {
    /// The layout is that of the command box of `s` on a terminal of
    /// `width` columns and `height` rows.
    spec fn is_for(self, s: EditorView, width: u16, height: u16) -> bool {
        &&& self.left == s.box_left(width)
        &&& self.top == s.box_top(height)
        &&& self.width == s.box_width(width)
        &&& self.height == s.box_height()
        &&& self.inner == s.box_inner(width)
        &&& self.fill == s.box_fill_color()
        &&& self.text == s.box_text_color()
        &&& self.left <= u16::MAX / 2
        &&& self.top <= u16::MAX / 2
        &&& self.top + self.height <= u16::MAX
    }
}

/// Works out where the command box lies.
fn box_layout(editor: &Editor, width: u16, height: u16) -> (layout: BoxLayout)
    ensures
        layout.is_for(editor@, width, height),
{
    let config = editor.config();
    let box_width = match config.command_box.width {
        Some(w) => w,
        None => command_box_width(width),
    };
    let box_height = or_default(&config.command_box.height, 5);
    BoxLayout {
        left: minus_or_zero(width / 2, box_width / 2),
        top: minus_or_zero(height / 2, box_height / 2),
        width: box_width,
        height: box_height,
        inner: minus_or_zero(box_width, 2),
        fill: first_color(
            &config.command_box.primary_color,
            &config.colors.command_box_background,
        ),
        text: first_color(&config.command_box.text_color, &config.colors.command_box_text),
    }
}

/// Adds the writes that fill a box with blanks.
fn emit_box_fill(plan: &mut Vec<DrawOp>, left: u16, top: u16, width: u16, rows: u16)
    requires
        top + rows <= u16::MAX,
    ensures
        plan_view(final(plan)@) == plan_view(old(plan)@) + box_fill(left, top, width, rows as int),
{
    let ghost before = plan_view(plan@);
    let mut row: u16 = 0;
    while row < rows
        invariant
            row <= rows,
            top + rows <= u16::MAX,
            plan_view(plan@) == before + box_fill(left, top, width, row as int),
        decreases rows - row,
    {
        emit_text(plan, left, top + row, repeated(' ', width as usize));
        row += 1;
    }
}

/// Adds the writes that draw the sides of a box.
fn emit_box_sides(plan: &mut Vec<DrawOp>, left: u16, first: u16, inner: u16, rows: u16)
    requires
        first + rows <= u16::MAX,
    ensures
        plan_view(final(plan)@) == plan_view(old(plan)@) + box_sides(
            left,
            first,
            inner as int,
            rows as int,
        ),
{
    let ghost before = plan_view(plan@);
    let mut row: u16 = 0;
    while row < rows
        invariant
            row <= rows,
            first + rows <= u16::MAX,
            plan_view(plan@) == before + box_sides(left, first, inner as int, row as int),
        decreases rows - row,
    {
        emit_text(plan, left, first + row, framed_text('│', ' ', '│', inner as usize));
        row += 1;
    }
}

/// Adds the writes that draw the border of a box.
fn emit_box_border(plan: &mut Vec<DrawOp>, left: u16, top: u16, last: u16, inner: u16)
    requires
        top < u16::MAX,
    ensures
        plan_view(final(plan)@) == plan_view(old(plan)@) + box_border(
            left,
            top,
            last,
            inner as int,
        ),
{
    let sides = minus_or_zero(last, top + 1);
    let ghost before = plan_view(plan@);
    emit_text(plan, left, top, framed_text('┌', '─', '┐', inner as usize));
    emit_box_sides(plan, left, top + 1, inner, sides);
    emit_text(plan, left, last, framed_text('└', '─', '┘', inner as usize));
    assert(box_sides(left, (top + 1) as u16, inner as int, last - top - 1) == box_sides(
        left,
        (top + 1) as u16,
        inner as int,
        sides as int,
    ));
    assert(plan_view(plan@) == before + box_border(left, top, last, inner as int));
}

/// Adds the writes that fill the command box and draw its border.
fn emit_box_frame(
    editor: &Editor,
    plan: &mut Vec<DrawOp>,
    layout: &BoxLayout,
    width: u16,
    height: u16,
)
    requires
        layout.is_for(editor@, width, height),
    ensures
        plan_view(final(plan)@) == plan_view(old(plan)@) + editor@.box_frame(width, height),
{
    let config = editor.config();
    let border = first_color(
        &config.command_box.secondary_color,
        &config.colors.command_box_border,
    );
    let last = minus_or_zero(layout.top + layout.height, 1);
    let ghost before = plan_view(plan@);
    emit_background(plan, layout.fill);
    emit_foreground(plan, layout.text);
    emit_box_fill(plan, layout.left, layout.top, layout.width, layout.height);
    let ghost filled = plan_view(plan@);
    assert(filled == before + (background(layout.fill) + foreground(layout.text) + box_fill(
        layout.left,
        layout.top,
        layout.width,
        layout.height as int,
    )));
    emit_foreground(plan, border);
    emit_box_border(plan, layout.left, layout.top, last, layout.inner);
    emit(plan, DrawOp::ResetColor);
    assert(plan_view(plan@) == filled + (foreground(border) + box_border(
        layout.left,
        layout.top,
        last,
        layout.inner as int,
    ) + seq![DrawOpView::ResetColor]));
}

/// The label of the command box, cut off at the box's inner width.
fn box_label_text(editor: &Editor, layout: &BoxLayout, width: u16, height: u16) -> (label:
    Vec<char>)
    requires
        layout.is_for(editor@, width, height),
    ensures
        label@ == editor@.box_label(width),
        label@.len() <= layout.inner,
{
    let mut label = match &editor.config().command_box.text {
        Some(text) => chars_of(text.as_str()),
        None => chars_of(" Command box "),
    };
    if label.len() > layout.inner as usize {
        label.truncate(layout.inner as usize);
    }
    label
}

/// Adds the writes that draw the status message in the command box.
fn emit_box_message(
    editor: &Editor,
    plan: &mut Vec<DrawOp>,
    layout: &BoxLayout,
    width: u16,
    height: u16,
)
    requires
        layout.is_for(editor@, width, height),
    ensures
        plan_view(final(plan)@) == plan_view(old(plan)@) + editor@.box_message(width, height),
{
    let message = chars_of(editor.message());
    if message.len() > 0 {
        emit_colored_text(
            plan,
            parse_color(&editor.config().colors.message_text),
            None,
            layout.left + 1,
            layout.top + 3,
            clipped(&message, layout.inner as usize),
        );
    }
}

/// Adds the writes that draw the text in the command box.
fn emit_box_texts(
    editor: &Editor,
    plan: &mut Vec<DrawOp>,
    layout: &BoxLayout,
    width: u16,
    height: u16,
)
    requires
        layout.is_for(editor@, width, height),
    ensures
        plan_view(final(plan)@) == plan_view(old(plan)@) + editor@.box_texts(width, height),
{
    let label = box_label_text(editor, layout, width, height);
    let label_x = layout.left + minus_or_zero(layout.width / 2, (label.len() / 2) as u16);
    let mut prompt: Vec<char> = Vec::new();
    prompt.push(':');
    let typed = editor.command_chars();
    let mut i: usize = 0;
    while i < typed.len()
        invariant
            i <= typed.len(),
            prompt@ == seq![':'] + typed@.take(i as int),
        decreases typed.len() - i,
    {
        prompt.push(typed[i]);
        i += 1;
    }
    assert(typed@.take(i as int) == typed@);
    let ghost before = plan_view(plan@);
    emit_background(plan, layout.fill);
    emit_foreground(plan, layout.text);
    emit_text(plan, label_x, layout.top, string_of(&label));
    emit_text(plan, layout.left + 1, layout.top + 2, clipped(&prompt, layout.inner as usize));
    let ghost first_half = plan_view(plan@);
    assert(first_half == before + (background(layout.fill) + foreground(layout.text) + write_at(
        label_x,
        layout.top,
        label@,
    ) + write_at(
        (layout.left + 1) as u16,
        (layout.top + 2) as u16,
        clip(seq![':'] + editor@.command, layout.inner as int),
    )));
    emit_box_message(editor, plan, layout, width, height);
    emit(plan, DrawOp::ResetColor);
    assert(plan_view(plan@) == first_half + (editor@.box_message(width, height)
        + seq![DrawOpView::ResetColor]));
    assert(plan_view(plan@) == before + editor@.box_texts(width, height));
}

/// Adds the writes that place the cursor at the prompt.
fn emit_prompt_cursor(
    editor: &Editor,
    plan: &mut Vec<DrawOp>,
    layout: &BoxLayout,
    width: u16,
    height: u16,
)
    requires
        layout.is_for(editor@, width, height),
    ensures
        plan_view(final(plan)@) == plan_view(old(plan)@) + editor@.prompt_cursor(width, height),
{
    let typed = low_bits_of(editor.command_chars().len());
    let column: u32 = layout.left as u32 + 1 + typed as u32;
    let x: u16 = if column > 0xffff {
        0xffff
    } else {
        column as u16
    };
    emit(plan, DrawOp::SetCursorShape(CursorShape::Bar));
    emit(plan, DrawOp::MoveTo { x, y: layout.top + 2 });
}

/// Adds the writes that draw the command box and place the cursor in it.
fn emit_command_box(editor: &Editor, plan: &mut Vec<DrawOp>, width: u16, height: u16)
    ensures
        plan_view(final(plan)@) == plan_view(old(plan)@) + editor@.command_box(width, height),
{
    let layout = box_layout(editor, width, height);
    let ghost before = plan_view(plan@);
    emit_box_frame(editor, plan, &layout, width, height);
    emit_box_texts(editor, plan, &layout, width, height);
    emit_prompt_cursor(editor, plan, &layout, width, height);
    assert(plan_view(plan@) == before + (editor@.box_frame(width, height) + editor@.box_texts(
        width,
        height,
    ) + editor@.prompt_cursor(width, height)));
}

/// Adds the writes that draw the status message above the mode bar.
fn emit_message_line(editor: &Editor, plan: &mut Vec<DrawOp>, height: u16)
    ensures
        plan_view(final(plan)@) == plan_view(old(plan)@) + editor@.message_line(height),
{
    let rows = editor.config().text_area_height(height);
    let message = editor.message();
    if !message.is_empty() && rows > 0 {
        emit_colored_text(
            plan,
            parse_color(&editor.config().colors.message_text),
            None,
            0,
            rows - 1,
            message.to_owned(),
        );
    }
}

/// Adds the writes that place the cursor in the text.
fn emit_text_cursor(editor: &Editor, plan: &mut Vec<DrawOp>, shape: CursorShape)
    ensures
        plan_view(final(plan)@) == plan_view(old(plan)@) + editor@.text_cursor(shape),
{
    let (column, row) = editor.cursor();
    let scroll = editor.scroll_offset();
    let below: usize = if row >= scroll {
        row - scroll
    } else {
        0
    };
    emit(plan, DrawOp::SetCursorShape(shape));
    emit(plan, DrawOp::MoveTo { x: low_bits_of(column), y: low_bits_of(below) });
}

/// Adds the writes that draw what lies over the text.
fn emit_overlay(editor: &Editor, plan: &mut Vec<DrawOp>, width: u16, height: u16)
    ensures
        plan_view(final(plan)@) == plan_view(old(plan)@) + editor@.overlay(width, height),
{
    let ghost before = plan_view(plan@);
    match editor.mode() {
        Mode::Command => emit_command_box(editor, plan, width, height),
        Mode::Normal => {
            emit_message_line(editor, plan, height);
            emit_text_cursor(editor, plan, CursorShape::Block);
            assert(plan_view(plan@) == before + (editor@.message_line(height)
                + editor@.text_cursor(CursorShape::Block)));
        },
        Mode::Insert => {
            emit_message_line(editor, plan, height);
            emit_text_cursor(editor, plan, CursorShape::Bar);
            assert(plan_view(plan@) == before + (editor@.message_line(height)
                + editor@.text_cursor(CursorShape::Bar)));
        },
    }
}

impl Editor {
    /// Plans one frame for a terminal of `width` columns and `height`
    /// rows: the writes that, made in order, draw the lines on screen, the
    /// mode bar and what lies over the text, and place the cursor.
    pub fn draw(&self, width: u16, height: u16) -> (plan: Vec<DrawOp>)
        ensures
            plan_view(plan@) == self@.frame(width, height),
    {
        let config = self.config();
        let rows = config.text_area_height(height);
        let mut plan: Vec<DrawOp> = Vec::new();
        emit(&mut plan, DrawOp::Clear);
        emit_background(&mut plan, parse_color(&config.colors.background));
        emit_foreground(&mut plan, parse_color(&config.colors.text));
        emit_text_area(self, &mut plan, width, rows);
        emit(&mut plan, DrawOp::ResetColor);
        let ghost text_part = plan_view(plan@);
        assert(text_part == seq![DrawOpView::Clear] + background(
            Color::resolved(config.colors.background),
        ) + foreground(Color::resolved(config.colors.text)) + text_area(
            self@.lines,
            self@.scroll,
            width,
            visible_count(self@.lines.len() as int, self@.scroll, rows as int),
        ) + seq![DrawOpView::ResetColor]);
        emit_mode_bar(self, &mut plan, width, height);
        emit_overlay(self, &mut plan, width, height);
        emit(&mut plan, DrawOp::Flush);
        assert(plan_view(plan@) == text_part + self@.mode_bar(width, height) + self@.overlay(
            width,
            height,
        ) + seq![DrawOpView::Flush]);
        plan
    }
}

} // verus!
