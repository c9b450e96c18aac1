//! What the editor shows: a title, a framed grid of rows with an address, a
//! hexadecimal pane and a text pane each, and a status line.
//!
//! A line is a sequence of glyphs, each a character with its colours. The
//! front end prints the lines one below the other.

use crate::command::Warning;
use crate::editor::{Editor, EditorMode, EditorView, ModeView};
use crate::hex::{ascii_glyph, hex_char, hex_digit, printable};
use crate::viewport::position;
use vstd::arithmetic::mul::lemma_mul_upper_bound;
use vstd::prelude::*;
use vstd::string::*;

verus! {

/// The colours the editor uses. `Reset` is the terminal's own.
#[derive(Clone, Copy, Debug, PartialEq, Eq, Structural)]
pub enum Color {
    Reset,
    Black,
    DarkYellow,
    Red,
}

/// One character on the screen.
#[derive(Clone, Copy, Debug, PartialEq, Eq, Structural)]
pub struct Glyph {
    pub symbol: char,
    pub foreground: Color,
    pub background: Color,
}

/// The two horizontal edges of the frame.
#[derive(Clone, Copy, Debug, PartialEq, Eq, Structural)]
pub enum BoxPart {
    Top,
    Bottom,
}

pub const RULE: char = '\u{2500}';

pub const BAR: char = '\u{2502}';

pub const TOP_TEE: char = '\u{252c}';

pub const BOTTOM_TEE: char = '\u{2534}';

pub const TOP_LEFT_CORNER: char = '\u{256d}';

pub const TOP_RIGHT_CORNER: char = '\u{256e}';

pub const BOTTOM_RIGHT_CORNER: char = '\u{256f}';

pub const BOTTOM_LEFT_CORNER: char = '\u{2570}';

/// What stands for a byte that has no printable character.
pub const PLACEHOLDER: char = '.';

/// The width of the address column and its margins, between the frame's
/// left edge and the hexadecimal pane.
pub const ADDRESS_WIDTH: u64 = 11;

/// `symbol` in the terminal's own colours.
pub open spec fn plain(symbol: char) -> Glyph {
    Glyph { symbol, foreground: Color::Reset, background: Color::Reset }
}

/// `text` in the given colours.
pub open spec fn styled(text: Seq<char>, foreground: Color, background: Color) -> Seq<Glyph>
    decreases text.len(),
{
    if text.len() == 0 {
        Seq::empty()
    } else {
        styled(text.drop_last(), foreground, background).push(
            Glyph { symbol: text.last(), foreground, background },
        )
    }
}

/// `count` times `glyph`; nothing for a count below 1.
pub open spec fn repeated(glyph: Glyph, count: int) -> Seq<Glyph> {
    Seq::new(
        if count > 0 {
            count as nat
        } else {
            0
        },
        |i: int| glyph,
    )
}

/// `value` in lower-case hexadecimal, padded with zeros to `width` digits
/// and longer where the value needs it.
pub open spec fn hex_text(value: nat, width: nat) -> Seq<char>
    decreases value, width,
{
    if value < 16 && width <= 1 {
        seq![hex_char(value as u8)]
    } else {
        let rest = if width > 0 {
            (width - 1) as nat
        } else {
            0
        };
        hex_text(value / 16, rest).push(hex_char((value % 16) as u8))
    }
}

/// An address as the screen shows it: two groups of digits, the second the
/// four digits of the low 16 bits, the first at least four digits for what
/// is above them.
pub open spec fn address(position: nat) -> Seq<Glyph> {
    styled(hex_text(position / 0x1_0000, 4), Color::Reset, Color::Reset) + seq![plain(' ')]
        + styled(hex_text(position % 0x1_0000, 4), Color::Reset, Color::Reset)
}

/// The background of the cell that shows `position`: the cursor's cell
/// stands out.
pub open spec fn cell_background(state: EditorView, position: int) -> Color {
    if position == state.cursor {
        Color::DarkYellow
    } else {
        Color::Reset
    }
}

/// The cell of the hexadecimal pane that shows `position`: the byte's two
/// digits and a space, or three spaces past the buffer's end.
pub open spec fn hex_cell(state: EditorView, position: int) -> Seq<Glyph> {
    if 0 <= position < state.data.len() {
        let byte = state.data[position];
        let background = cell_background(state, position);
        seq![
            Glyph { symbol: hex_char(byte / 16), foreground: Color::Reset, background },
            Glyph { symbol: hex_char(byte % 16), foreground: Color::Reset, background },
            plain(' '),
        ]
    } else {
        seq![plain(' '), plain(' '), plain(' ')]
    }
}

/// The cell of the text pane that shows `position`: the byte as a character
/// where it is printable, a dimmed placeholder where it is not, a space past
/// the buffer's end.
pub open spec fn text_cell(state: EditorView, position: int) -> Glyph {
    if 0 <= position < state.data.len() {
        let byte = state.data[position];
        let background = cell_background(state, position);
        if printable(byte) {
            Glyph { symbol: byte as char, foreground: Color::Reset, background }
        } else {
            Glyph { symbol: PLACEHOLDER, foreground: Color::Black, background }
        }
    } else {
        plain(' ')
    }
}

/// The hexadecimal cells of `count` positions from `start` on.
pub open spec fn hex_pane(state: EditorView, start: int, count: int) -> Seq<Glyph>
    decreases count,
{
    if count <= 0 {
        Seq::empty()
    } else {
        hex_pane(state, start, count - 1) + hex_cell(state, start + count - 1)
    }
}

/// The text cells of `count` positions from `start` on.
pub open spec fn text_pane(state: EditorView, start: int, count: int) -> Seq<Glyph>
    decreases count,
{
    if count <= 0 {
        Seq::empty()
    } else {
        text_pane(state, start, count - 1).push(text_cell(state, start + count - 1))
    }
}

/// Row `line` of the window: its address, its bytes in hexadecimal, and its
/// bytes as text, between the frame's bars.
pub open spec fn row(state: EditorView, line: int) -> Seq<Glyph> {
    let start = state.offset + line * state.bytes_per_line;
    seq![plain('\r'), plain(' '), plain(BAR), plain(' ')] + address(start as nat) + seq![
        plain(' '),
        plain(BAR),
        plain(' '),
    ] + hex_pane(state, start, state.bytes_per_line) + seq![plain(BAR), plain(' ')] + text_pane(
        state,
        start,
        state.bytes_per_line,
    ) + seq![plain(' '), plain(BAR)]
}

pub open spec fn left_corner(part: BoxPart) -> char {
    match part {
        BoxPart::Top => TOP_LEFT_CORNER,
        BoxPart::Bottom => BOTTOM_LEFT_CORNER,
    }
}

pub open spec fn tee(part: BoxPart) -> char {
    match part {
        BoxPart::Top => TOP_TEE,
        BoxPart::Bottom => BOTTOM_TEE,
    }
}

pub open spec fn right_corner(part: BoxPart) -> char {
    match part {
        BoxPart::Top => TOP_RIGHT_CORNER,
        BoxPart::Bottom => BOTTOM_RIGHT_CORNER,
    }
}

/// An edge of the frame for rows of `bytes_per_line` bytes: corners at the
/// ends, a tee where each bar of a row meets it, rules between.
pub open spec fn box_part(part: BoxPart, bytes_per_line: int) -> Seq<Glyph> {
    seq![plain('\r'), plain(' '), plain(left_corner(part))] + repeated(
        plain(RULE),
        ADDRESS_WIDTH as int,
    ) + seq![plain(tee(part))] + repeated(plain(RULE), 3 * bytes_per_line + 1) + seq![
        plain(tee(part)),
    ] + repeated(plain(RULE), bytes_per_line + 2) + seq![plain(right_corner(part))]
}

/// The title line: the editor's name, then the name of what is edited.
pub open spec fn title(name: Seq<char>) -> Seq<Glyph> {
    seq![plain('\r')] + repeated(plain(' '), 5) + styled(
        "Ashe"@,
        Color::DarkYellow,
        Color::Reset,
    ) + repeated(plain(' '), 6) + styled(name, Color::Reset, Color::Reset)
}

/// The part of the status line that shows the command line: a colon and the
/// text in command mode, and spaces up to the width of the hexadecimal pane.
pub open spec fn command_field(state: EditorView) -> Seq<Glyph> {
    match state.mode {
        ModeView::Command(text) => seq![plain(':')] + styled(text, Color::Reset, Color::Reset)
            + repeated(plain(' '), 3 * state.bytes_per_line - text.len()),
        ModeView::Edit(_) => repeated(plain(' '), 3 * state.bytes_per_line),
    }
}

/// The text of the warning; empty where there is none.
pub open spec fn warning_text(warning: Option<Warning>) -> Seq<char> {
    match warning {
        Some(warning) => warning.message(),
        None => Seq::empty(),
    }
}

/// The part of the status line that shows the warning, in red, and spaces
/// up to the width of the text pane.
pub open spec fn warning_field(state: EditorView) -> Seq<Glyph> {
    let text = warning_text(state.warning);
    let space = Glyph { symbol: ' ', foreground: Color::Red, background: Color::Reset };
    styled(text, Color::Red, Color::Reset) + repeated(space, state.bytes_per_line - text.len())
}

/// The status line: the cursor's address, the command line, the warning.
pub open spec fn status(state: EditorView) -> Seq<Glyph> {
    seq![plain('\r')] + repeated(plain(' '), 3) + address(state.cursor as nat) + repeated(
        plain(' '),
        3,
    ) + command_field(state) + warning_field(state)
}

/// The first `count` rows of the window, from the top.
pub open spec fn rows(state: EditorView, count: int) -> Seq<Seq<Glyph>>
    decreases count,
{
    if count <= 0 {
        Seq::empty()
    } else {
        rows(state, count - 1).push(row(state, count - 1))
    }
}

/// The whole screen for a window of `lines` rows, line by line: the title,
/// the frame's top, the rows, the frame's bottom, the status line.
pub open spec fn frame(state: EditorView, name: Seq<char>, lines: int) -> Seq<Seq<Glyph>> {
    seq![title(name), box_part(BoxPart::Top, state.bytes_per_line)] + rows(state, lines) + seq![
        box_part(BoxPart::Bottom, state.bytes_per_line),
        status(state),
    ]
}

/// The lines of `screen` by their views.
pub open spec fn lines_of(screen: Seq<Vec<Glyph>>) -> Seq<Seq<Glyph>> {
    Seq::new(screen.len(), |i: int| screen[i]@)
}

/// Styling a text with one more character adds that character's glyph.
proof fn lemma_styled_push(text: Seq<char>, symbol: char, foreground: Color, background: Color)
    ensures
        styled(text.push(symbol), foreground, background) == styled(
            text,
            foreground,
            background,
        ).push(Glyph { symbol, foreground, background }),
{
    assert(text.push(symbol).drop_last() =~= text);
}

fn make_plain(symbol: char) -> (glyph: Glyph)
    ensures
        glyph == plain(symbol),
{
    Glyph { symbol, foreground: Color::Reset, background: Color::Reset }
}

fn push_repeated(out: &mut Vec<Glyph>, glyph: Glyph, count: u64)
    ensures
        final(out)@ == old(out)@ + repeated(glyph, count as int),
{
    let mut done: u64 = 0;
    while done < count
        invariant
            done <= count,
            out@ == old(out)@ + repeated(glyph, done as int),
        decreases count - done,
    {
        out.push(glyph);
        done = done + 1;
    }
}

fn push_text(out: &mut Vec<Glyph>, text: &str, foreground: Color, background: Color)
    ensures
        final(out)@ == old(out)@ + styled(text@, foreground, background),
{
    let count = text.unicode_len();
    let mut done: usize = 0;
    while done < count
        invariant
            done <= count,
            count == text@.len(),
            out@ == old(out)@ + styled(text@.take(done as int), foreground, background),
        decreases count - done,
    {
        proof {
            assert(text@.take(done + 1) =~= text@.take(done as int).push(text@[done as int]));
            lemma_styled_push(text@.take(done as int), text@[done as int], foreground, background);
        }
        out.push(Glyph { symbol: text.get_char(done), foreground, background });
        done = done + 1;
    }
    assert(text@.take(count as int) =~= text@);
}

fn push_hex(out: &mut Vec<Glyph>, value: u64, width: u32)
    ensures
        final(out)@ == old(out)@ + styled(
            hex_text(value as nat, width as nat),
            Color::Reset,
            Color::Reset,
        ),
    decreases value, width,
{
    let ghost digit = hex_char((value % 16) as u8);
    let ghost upper: Seq<char>;
    if value >= 16 || width > 1 {
        let rest = if width > 0 {
            width - 1
        } else {
            0
        };
        push_hex(out, value / 16, rest);
        proof {
            upper = hex_text((value / 16) as nat, rest as nat);
        }
    } else {
        proof {
            upper = Seq::empty();
            assert(seq![digit] =~= upper.push(digit));
        }
    }
    out.push(make_plain(hex_digit((value % 16) as u8)));
    proof {
        lemma_styled_push(upper, digit, Color::Reset, Color::Reset);
        assert(hex_text(value as nat, width as nat) == upper.push(digit));
        assert(out@ =~= old(out)@ + styled(upper.push(digit), Color::Reset, Color::Reset));
    }
}

fn push_address(out: &mut Vec<Glyph>, position: u64)
    ensures
        final(out)@ == old(out)@ + address(position as nat),
{
    push_hex(out, position / 0x1_0000, 4);
    out.push(make_plain(' '));
    push_hex(out, position % 0x1_0000, 4);
}

/// An edge of the frame for rows of `bytes_per_line` bytes.
pub fn draw_box_part(part: BoxPart, bytes_per_line: u32) -> (line: Vec<Glyph>)
    ensures
        line@ == box_part(part, bytes_per_line as int),
{
    let (left, middle, right) = match part {
        BoxPart::Top => (TOP_LEFT_CORNER, TOP_TEE, TOP_RIGHT_CORNER),
        BoxPart::Bottom => (BOTTOM_LEFT_CORNER, BOTTOM_TEE, BOTTOM_RIGHT_CORNER),
    };
    let mut line: Vec<Glyph> = Vec::new();
    line.push(make_plain('\r'));
    line.push(make_plain(' '));
    line.push(make_plain(left));
    push_repeated(&mut line, make_plain(RULE), ADDRESS_WIDTH);
    line.push(make_plain(middle));
    push_repeated(&mut line, make_plain(RULE), 3 * (bytes_per_line as u64) + 1);
    line.push(make_plain(middle));
    push_repeated(&mut line, make_plain(RULE), bytes_per_line as u64 + 2);
    line.push(make_plain(right));
    line
}

/// The title line for an editor on `name`.
pub fn draw_title(name: &str) -> (line: Vec<Glyph>)
    ensures
        line@ == title(name@),
{
    let mut line: Vec<Glyph> = Vec::new();
    line.push(make_plain('\r'));
    push_repeated(&mut line, make_plain(' '), 5);
    push_text(&mut line, "Ashe", Color::DarkYellow, Color::Reset);
    push_repeated(&mut line, make_plain(' '), 6);
    push_text(&mut line, name, Color::Reset, Color::Reset);
    line
}

impl Editor {
    /// Row `line` of the window.
    pub fn draw_row(&self, line: u16) -> (glyphs: Vec<Glyph>)
        ensures
            glyphs@ == row(self@, line as int),
    {
        let width = self.bytes_per_line();
        let start = position(self.offset(), line as u32, 0, width);
        proof {
            lemma_mul_upper_bound(line as int, u16::MAX as int, width as int, u32::MAX as int);
        }
        let mut glyphs: Vec<Glyph> = Vec::new();
        glyphs.push(make_plain('\r'));
        glyphs.push(make_plain(' '));
        glyphs.push(make_plain(BAR));
        glyphs.push(make_plain(' '));
        push_address(&mut glyphs, start);
        glyphs.push(make_plain(' '));
        glyphs.push(make_plain(BAR));
        glyphs.push(make_plain(' '));
        let ghost before_hex = glyphs@;
        let mut column: u32 = 0;
        while column < width
            invariant
                column <= width,
                width == self@.bytes_per_line,
                start + width <= u64::MAX,
                glyphs@ == before_hex + hex_pane(self@, start as int, column as int),
            decreases width - column,
        {
            let at = start + column as u64;
            let background = if at == self.cursor() as u64 {
                Color::DarkYellow
            } else {
                Color::Reset
            };
            if at < self.buffer().len() as u64 {
                let byte = self.buffer().get(at as usize);
                glyphs.push(
                    Glyph { symbol: hex_digit(byte / 16), foreground: Color::Reset, background },
                );
                glyphs.push(
                    Glyph { symbol: hex_digit(byte % 16), foreground: Color::Reset, background },
                );
                glyphs.push(make_plain(' '));
            } else {
                glyphs.push(make_plain(' '));
                glyphs.push(make_plain(' '));
                glyphs.push(make_plain(' '));
            }
            column = column + 1;
        }
        glyphs.push(make_plain(BAR));
        glyphs.push(make_plain(' '));
        let ghost before_text = glyphs@;
        let mut column: u32 = 0;
        while column < width
            invariant
                column <= width,
                width == self@.bytes_per_line,
                start + width <= u64::MAX,
                glyphs@ == before_text + text_pane(self@, start as int, column as int),
            decreases width - column,
        {
            let at = start + column as u64;
            let background = if at == self.cursor() as u64 {
                Color::DarkYellow
            } else {
                Color::Reset
            };
            if at < self.buffer().len() as u64 {
                let byte = self.buffer().get(at as usize);
                match ascii_glyph(byte) {
                    Some(symbol) => {
                        glyphs.push(Glyph { symbol, foreground: Color::Reset, background });
                    },
                    None => {
                        glyphs.push(
                            Glyph { symbol: PLACEHOLDER, foreground: Color::Black, background },
                        );
                    },
                }
            } else {
                glyphs.push(make_plain(' '));
            }
            column = column + 1;
        }
        glyphs.push(make_plain(' '));
        glyphs.push(make_plain(BAR));
        glyphs
    }

    /// The status line.
    pub fn draw_status(&self) -> (glyphs: Vec<Glyph>)
        ensures
            glyphs@ == status(self@),
    {
        let width = self.bytes_per_line() as u64;
        let mut glyphs: Vec<Glyph> = Vec::new();
        glyphs.push(make_plain('\r'));
        push_repeated(&mut glyphs, make_plain(' '), 3);
        push_address(&mut glyphs, self.cursor() as u64);
        push_repeated(&mut glyphs, make_plain(' '), 3);
        match self.mode() {
            EditorMode::Command(command) => {
                glyphs.push(make_plain(':'));
                push_text(&mut glyphs, command.as_str(), Color::Reset, Color::Reset);
                let used = command.as_str().unicode_len() as u64;
                push_repeated(
                    &mut glyphs,
                    make_plain(' '),
                    if used < 3 * width {
                        3 * width - used
                    } else {
                        0
                    },
                );
            },
            EditorMode::Edit(_) => {
                push_repeated(&mut glyphs, make_plain(' '), 3 * width);
            },
        }
        let warning = self.warning();
        push_text(&mut glyphs, warning, Color::Red, Color::Reset);
        let used = warning.unicode_len() as u64;
        push_repeated(
            &mut glyphs,
            Glyph { symbol: ' ', foreground: Color::Red, background: Color::Reset },
            if used < width {
                width - used
            } else {
                0
            },
        );
        glyphs
    }

    /// The whole screen for a window of `lines` rows on what is called
    /// `name`, line by line from the top.
    pub fn redraw(&self, name: &str, lines: u16) -> (screen: Vec<Vec<Glyph>>)
        ensures
            lines_of(screen@) == frame(self@, name@, lines as int),
    {
        let mut screen: Vec<Vec<Glyph>> = Vec::new();
        screen.push(draw_title(name));
        screen.push(draw_box_part(BoxPart::Top, self.bytes_per_line()));
        let ghost head = seq![title(name@), box_part(BoxPart::Top, self@.bytes_per_line)];
        assert(lines_of(screen@) =~= head);
        let mut line: u16 = 0;
        while line < lines
            invariant
                line <= lines,
                lines_of(screen@) == head + rows(self@, line as int),
            decreases lines - line,
        {
            let ghost above = screen@;
            let glyphs = self.draw_row(line);
            screen.push(glyphs);
            assert(lines_of(screen@) =~= lines_of(above).push(row(self@, line as int)));
            line = line + 1;
        }
        let ghost above = screen@;
        let bottom = draw_box_part(BoxPart::Bottom, self.bytes_per_line());
        let status_line = self.draw_status();
        screen.push(bottom);
        screen.push(status_line);
        assert(lines_of(screen@) =~= lines_of(above) + seq![
            box_part(BoxPart::Bottom, self@.bytes_per_line),
            status(self@),
        ]);
        screen
    }
}

} // verus!
