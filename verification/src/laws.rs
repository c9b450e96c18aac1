//! What holds of the editor whatever the keys: statements about
//! `EditorView::step` and the functions it is made of, each with its proof.

use crate::command::{command_char, Effect, Warning, MAX_COMMAND_LEN};
use crate::editor::{typed_digit, EditorView, ModeView};
use crate::hex::{compose, hex_char, hex_value, lemma_compose_nibbles, lemma_hex_value_range};
use crate::key::{KeyCode, KeyEvent};
use crate::viewport::{
    clamped, col_of, cursor_delta, lemma_row_of_aligned, lemma_scrolled, position_at, row_of,
    visible,
};
use vstd::arithmetic::div_mod::{
    lemma_fundamental_div_mod, lemma_fundamental_div_mod_converse, lemma_mod_add_multiples_vanish,
};
use vstd::prelude::*;

verus! {

/// In a buffer that holds a byte, a moved cursor is on a byte of the buffer,
/// wherever it was and however far it was sent. A move to or before the
/// first byte ends on the first, a move to or past the last ends on the
/// last.
pub proof fn law_cursor_stays_inside(cursor: int, delta: int, len: int)
    requires
        len > 0,
    ensures
        0 <= clamped(cursor, delta, len) <= len - 1,
        cursor + delta <= 0 ==> clamped(cursor, delta, len) == 0,
        cursor + delta >= len - 1 ==> clamped(cursor, delta, len) == len - 1,
        0 <= cursor + delta <= len - 1 ==> clamped(cursor, delta, len) == cursor + delta,
{
}

/// Every key leaves a well-formed editor well formed. In particular the
/// command line never grows past `MAX_COMMAND_LEN` characters, the cursor
/// never leaves the buffer, and the window always starts on a row boundary.
pub proof fn law_step_keeps_well_formed(state: EditorView, event: KeyEvent, rows: int)
    requires
        state.wf(),
        rows > 0,
    ensures
        state.step(event, rows).0.wf(),
        state.step(event, rows).0.mode matches ModeView::Command(text) ==> text.len()
            <= MAX_COMMAND_LEN,
        state.step(event, rows).0.bytes_per_line == state.bytes_per_line,
        state.step(event, rows).0.data.len() == state.data.len(),
{
    let entered = state.global(event);
    match entered.mode {
        ModeView::Edit(pending) => {
            let delta = cursor_delta(event, entered.bytes_per_line, rows);
            if delta != 0 {
                let moved = entered.moved(delta);
                lemma_scrolled(moved.offset, moved.cursor, moved.bytes_per_line, rows);
            } else if let KeyCode::Char(c) = event.code {
                lemma_hex_value_range(c);
            }
        },
        ModeView::Command(text) => {},
    }
}

/// After a key that moves the cursor in edit mode, the window shows the
/// cursor.
pub proof fn law_window_follows_cursor(state: EditorView, event: KeyEvent, rows: int)
    requires
        state.wf(),
        rows > 0,
        state.mode is Edit,
        cursor_delta(event, state.bytes_per_line, rows) != 0,
    ensures
        ({
            let next = state.step(event, rows).0;
            &&& next.cursor == clamped(
                state.cursor,
                cursor_delta(event, state.bytes_per_line, rows),
                state.data.len() as int,
            )
            &&& visible(next.cursor, next.offset, next.bytes_per_line, rows)
            &&& visible(next.cursor, state.offset, state.bytes_per_line, rows) ==> next.offset
                == state.offset
        }),
{
    let entered = state.global(event);
    let moved = entered.moved(cursor_delta(event, state.bytes_per_line, rows));
    lemma_scrolled(moved.offset, moved.cursor, moved.bytes_per_line, rows);
}

/// Two digits typed in edit mode with nothing pending make one byte. The
/// first digit alone is stored as the byte's value and is then pending; the
/// second completes the byte to sixteen times the first plus the second,
/// and nothing is pending. The cursor stays, and no other byte changes.
pub proof fn law_nibble_round_trip(state: EditorView, first: KeyEvent, second: KeyEvent, rows: int)
    requires
        state.wf(),
        rows > 0,
        state.mode == ModeView::Edit(None),
        state.data.len() > 0,
        typed_digit(first) is Some,
        typed_digit(second) is Some,
    ensures
        ({
            let a = typed_digit(first).unwrap();
            let b = typed_digit(second).unwrap();
            let one = state.step(first, rows).0;
            let two = one.step(second, rows).0;
            &&& one.data == state.data.update(state.cursor, a)
            &&& one.mode == ModeView::Edit(Some(a))
            &&& one.cursor == state.cursor
            &&& one.dirty
            &&& two.data == state.data.update(state.cursor, compose(a, b))
            &&& compose(a, b) == 16 * a + b
            &&& two.mode == ModeView::Edit(None)
            &&& two.cursor == state.cursor
        }),
{
    let a = typed_digit(first).unwrap();
    let b = typed_digit(second).unwrap();
    if let KeyCode::Char(c) = first.code {
        lemma_hex_value_range(c);
    }
    if let KeyCode::Char(c) = second.code {
        lemma_hex_value_range(c);
    }
    lemma_compose_nibbles(a, b);
    assert(cursor_delta(first, state.bytes_per_line, rows) == 0) by (nonlinear_arith)
        requires
            cursor_delta(first, state.bytes_per_line, rows) == 0 * rows || cursor_delta(
                first,
                state.bytes_per_line,
                rows,
            ) == 0,
    ;
    assert(cursor_delta(second, state.bytes_per_line, rows) == 0) by (nonlinear_arith)
        requires
            cursor_delta(second, state.bytes_per_line, rows) == 0 * rows || cursor_delta(
                second,
                state.bytes_per_line,
                rows,
            ) == 0,
    ;
    let one = state.step(first, rows).0;
    assert(one.data.update(one.cursor, compose(a, b)) =~= state.data.update(
        state.cursor,
        compose(a, b),
    ));
}

/// A key that moves the cursor drops a pending digit: the next digit starts
/// a byte of its own and is stored as typed, not joined to the dropped one.
pub proof fn law_navigation_drops_nibble(
    state: EditorView,
    arrow: KeyEvent,
    digit: KeyEvent,
    rows: int,
)
    requires
        state.wf(),
        rows > 0,
        state.mode is Edit,
        state.data.len() > 0,
        cursor_delta(arrow, state.bytes_per_line, rows) != 0,
        typed_digit(digit) is Some,
    ensures
        ({
            let moved = state.step(arrow, rows).0;
            let typed = moved.step(digit, rows).0;
            &&& moved.mode == ModeView::Edit(None)
            &&& moved.data == state.data
            &&& typed.data == moved.data.update(moved.cursor, typed_digit(digit).unwrap())
            &&& typed.mode == ModeView::Edit(Some(typed_digit(digit).unwrap()))
        }),
{
    assert(cursor_delta(digit, state.bytes_per_line, rows) == 0) by (nonlinear_arith)
        requires
            cursor_delta(digit, state.bytes_per_line, rows) == 0 * rows || cursor_delta(
                digit,
                state.bytes_per_line,
                rows,
            ) == 0,
    ;
}

/// A full command line takes no further character: the text stays as it is
/// and the status line says that the command is too long.
pub proof fn law_full_command_line(state: EditorView, event: KeyEvent, rows: int)
    requires
        state.wf(),
        rows > 0,
        state.mode matches ModeView::Command(text) && text.len() == MAX_COMMAND_LEN,
        event.code matches KeyCode::Char(c) && command_char(c),
    ensures
        state.step(event, rows).0.mode == state.mode,
        state.step(event, rows).0.warning == Some(Warning::CommandTooLong),
        state.step(event, rows).1 == Effect::Nothing,
{
}

/// Saving a clean buffer needs no storage: no command asks for a write, and
/// the buffer counts as saved whatever storage would have said. Saving never
/// changes a byte, so a save that failed offers the same bytes again.
pub proof fn law_save_is_idempotent(state: EditorView, text: Seq<char>, ok: bool)
    ensures
        !state.dirty ==> state.executed(text).1 == Effect::Nothing,
        !state.dirty ==> state.stored(ok) == (state, true),
        state.stored(ok).0.data == state.data,
        state.stored(ok).1 ==> !state.stored(ok).0.dirty,
        !state.stored(ok).1 ==> state.stored(ok).0.dirty && state.stored(ok).0.executed(text).1
            == state.executed(text).1,
{
}

/// `Down` from the last visible row, where the buffer goes on for another
/// row, moves the window by exactly one row: the cursor is again in the last
/// visible row, in the column it was in.
pub proof fn law_down_scrolls_one_row(state: EditorView, event: KeyEvent, rows: int)
    requires
        state.wf(),
        rows > 0,
        state.mode is Edit,
        event.code == KeyCode::Down,
        !event.modifiers.control_only(),
        state.offset <= state.cursor,
        row_of(state.cursor, state.offset, state.bytes_per_line) == rows - 1,
        state.cursor + state.bytes_per_line < state.data.len(),
    ensures
        ({
            let next = state.step(event, rows).0;
            &&& next.cursor == state.cursor + state.bytes_per_line
            &&& next.offset == state.offset + state.bytes_per_line
            &&& row_of(next.cursor, next.offset, next.bytes_per_line) == rows - 1
            &&& col_of(next.cursor, next.offset, next.bytes_per_line) == col_of(
                state.cursor,
                state.offset,
                state.bytes_per_line,
            )
        }),
{
    let d = state.bytes_per_line;
    let cursor = state.cursor + d;
    let offset = state.offset + d;
    let next = state.step(event, rows).0;
    lemma_mod_add_multiples_vanish(state.offset, d);
    lemma_mod_add_multiples_vanish(state.cursor, d);
    lemma_row_of_aligned(state.cursor, state.offset, d);
    lemma_row_of_aligned(cursor, offset, d);
    assert(rows * d - (rows - 1) * d == d) by (nonlinear_arith);
    assert(row_of(cursor, offset, d) == rows - 1) by (nonlinear_arith)
        requires
            d > 0,
            row_of(cursor, offset, d) * d == (rows - 1) * d,
    ;
}

/// Row and column name a position, and only that one: the cell found for a
/// position leads back to it, and a cell within the row width is the one
/// found for the position it shows.
pub proof fn law_cell_round_trip(offset: int, bytes_per_line: int, position: int, row: int, col: int)
    requires
        bytes_per_line > 0,
        0 <= col < bytes_per_line,
    ensures
        position_at(
            offset,
            row_of(position, offset, bytes_per_line),
            col_of(position, offset, bytes_per_line),
            bytes_per_line,
        ) == position,
        row_of(position_at(offset, row, col, bytes_per_line), offset, bytes_per_line) == row,
        col_of(position_at(offset, row, col, bytes_per_line), offset, bytes_per_line) == col,
{
    lemma_fundamental_div_mod(position - offset, bytes_per_line);
    assert(bytes_per_line * ((position - offset) / bytes_per_line) == ((position - offset)
        / bytes_per_line) * bytes_per_line) by (nonlinear_arith);
    lemma_fundamental_div_mod_converse(row * bytes_per_line + col, bytes_per_line, row, col);
}

/// A digit reads back as the nibble it shows.
pub proof fn law_hex_digit_reads_back(n: u8)
    requires
        n < 16,
    ensures
        hex_value(hex_char(n)) == Some(n),
{
}

} // verus!
