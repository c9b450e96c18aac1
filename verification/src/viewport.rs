//! Cursor and window arithmetic over a grid of `bytes_per_line` columns.
//!
//! A position is an absolute byte index. The window starts at `offset`, a
//! multiple of `bytes_per_line`, and shows `rows` rows.

use crate::key::{KeyCode, KeyEvent};
use vstd::arithmetic::div_mod::{
    lemma_fundamental_div_mod, lemma_fundamental_div_mod_converse, lemma_mod_multiples_vanish,
    lemma_small_mod,
};
use vstd::arithmetic::mul::{lemma_mul_is_distributive_sub_other_way, lemma_mul_upper_bound};
use vstd::assert_by_contradiction;
use vstd::prelude::*;

verus! {

/// The longest buffer whose last byte a 32-bit cursor reaches.
pub const MAX_LEN: u64 = 0x1_0000_0000;

/// Where a cursor at `cursor` lands when it is moved by `delta` in a buffer
/// of `len` bytes: as far as asked, but not before the first byte nor past
/// the last. In an empty buffer it stays at 0.
pub open spec fn clamped(cursor: int, delta: int, len: int) -> int {
    if len <= 0 || cursor + delta < 0 {
        0
    } else if cursor + delta >= len {
        len - 1
    } else {
        cursor + delta
    }
}

/// How far a key moves the cursor: a row for `Down` and `Up`, a byte for
/// `Left` and `Right`, nothing for any other key.
pub open spec fn step(code: KeyCode, bytes_per_line: int) -> int {
    match code {
        KeyCode::Down => bytes_per_line,
        KeyCode::Up => -bytes_per_line,
        KeyCode::Left => -1,
        KeyCode::Right => 1,
        _ => 0,
    }
}

/// The cursor movement a key press asks for. With the control chord a step
/// counts once for every visible row.
pub open spec fn cursor_delta(event: KeyEvent, bytes_per_line: int, rows: int) -> int {
    if event.modifiers.control_only() {
        step(event.code, bytes_per_line) * rows
    } else {
        step(event.code, bytes_per_line)
    }
}

/// Whether the window at `offset` shows `position`.
pub open spec fn visible(position: int, offset: int, bytes_per_line: int, rows: int) -> bool {
    offset <= position < offset + rows * bytes_per_line
}

/// The first position of the row that holds `position`.
pub open spec fn row_start(position: int, bytes_per_line: int) -> int {
    position - position % bytes_per_line
}

/// The window start after the window has followed the cursor. A cursor in
/// view leaves the window alone; one above it becomes part of the first row,
/// one below it part of the last.
pub open spec fn scrolled(offset: int, cursor: int, bytes_per_line: int, rows: int) -> int {
    if cursor < offset {
        row_start(cursor, bytes_per_line)
    } else if cursor >= offset + rows * bytes_per_line {
        row_start(cursor, bytes_per_line) - (rows - 1) * bytes_per_line
    } else {
        offset
    }
}

/// The row of `position` in the window at `offset`, counted from 0.
pub open spec fn row_of(position: int, offset: int, bytes_per_line: int) -> int {
    (position - offset) / bytes_per_line
}

/// The column of `position` in the window at `offset`, counted from 0.
pub open spec fn col_of(position: int, offset: int, bytes_per_line: int) -> int {
    (position - offset) % bytes_per_line
}

/// The position shown at `row` and `col` of the window at `offset`.
pub open spec fn position_at(offset: int, row: int, col: int, bytes_per_line: int) -> int {
    offset + row * bytes_per_line + col
}

pub fn clamp(cursor: u32, delta: i64, len: usize) -> (moved: u32)
    requires
        len <= MAX_LEN,
    ensures
        moved == clamped(cursor as int, delta as int, len as int),
{
    if len == 0 {
        return 0;
    }
    let target: i128 = cursor as i128 + delta as i128;
    if target < 0 {
        0
    } else if target >= len as i128 {
        (len - 1) as u32
    } else {
        target as u32
    }
}

/// A multiple of `d` that `c` follows by less than `d` is the start of
/// `c`'s row.
proof fn lemma_row_start(a: int, c: int, d: int)
    requires
        d > 0,
        a % d == 0,
        a <= c < a + d,
    ensures
        a == row_start(c, d),
{
    lemma_fundamental_div_mod(a, d);
    assert(c == (a / d) * d + (c - a)) by (nonlinear_arith)
        requires
            a == d * (a / d) + a % d,
            a % d == 0,
    ;
    lemma_fundamental_div_mod_converse(c, d, a / d, c - a);
}

/// Moving a row start by whole rows gives a row start.
proof fn lemma_shift_rows(a: int, k: int, d: int)
    requires
        d > 0,
        a % d == 0,
    ensures
        (a + k * d) % d == 0,
{
    lemma_mod_multiples_vanish(k, a, d);
    assert(d * k + a == a + k * d) by (nonlinear_arith);
}

/// A positive multiple of `d` is at least `d`.
proof fn lemma_multiple_at_least(a: int, d: int)
    requires
        d > 0,
        a > 0,
        a % d == 0,
    ensures
        a >= d,
{
    if a < d {
        lemma_small_mod(a as nat, d as nat);
    }
}

/// Lets the window follow the cursor, one row at a time: down while the
/// cursor is at or past the bottom edge, then up while it is above the top.
pub fn scroll(offset: u32, cursor: u32, bytes_per_line: u32, rows: u32) -> (result: u32)
    requires
        bytes_per_line > 0,
        rows > 0,
        offset % bytes_per_line == 0,
    ensures
        result == scrolled(offset as int, cursor as int, bytes_per_line as int, rows as int),
        result % bytes_per_line == 0,
        visible(cursor as int, result as int, bytes_per_line as int, rows as int),
{
    proof {
        lemma_mul_upper_bound(rows as int, u32::MAX as int, bytes_per_line as int, u32::MAX as int);
        assert(rows * bytes_per_line >= bytes_per_line) by (nonlinear_arith)
            requires
                rows >= 1,
                bytes_per_line >= 0,
        ;
    }
    let window: u64 = rows as u64 * bytes_per_line as u64;
    let mut current: u32 = offset;
    while cursor as u64 >= current as u64 + window
        invariant
            bytes_per_line > 0,
            window == rows * bytes_per_line,
            bytes_per_line <= window <= u32::MAX * u32::MAX,
            current % bytes_per_line == 0,
            offset <= current,
            current == offset || (offset + window <= cursor && current + window - bytes_per_line
                <= cursor),
        decreases cursor - current,
    {
        proof {
            lemma_shift_rows(current as int, 1, bytes_per_line as int);
        }
        current = current + bytes_per_line;
    }
    let ghost lowered = current;
    while cursor < current
        invariant
            bytes_per_line > 0,
            current % bytes_per_line == 0,
            current <= lowered,
            current == lowered || (cursor < lowered && cursor < current + bytes_per_line),
        decreases current,
    {
        proof {
            lemma_multiple_at_least(current as int, bytes_per_line as int);
            lemma_shift_rows(current as int, -1, bytes_per_line as int);
        }
        current = current - bytes_per_line;
    }
    proof {
        let d = bytes_per_line as int;
        if cursor < offset {
            lemma_row_start(current as int, cursor as int, d);
        } else if cursor >= offset + window {
            lemma_mul_is_distributive_sub_other_way(d, rows as int, 1);
            lemma_shift_rows(current as int, rows - 1, d);
            lemma_row_start(current + (rows - 1) * d, cursor as int, d);
        }
    }
    current
}

/// The row and column at which the window at `offset` shows `position`.
pub fn locate(position: u32, offset: u32, bytes_per_line: u32) -> (cell: (u32, u32))
    requires
        bytes_per_line > 0,
        offset <= position,
    ensures
        cell.0 == row_of(position as int, offset as int, bytes_per_line as int),
        cell.1 == col_of(position as int, offset as int, bytes_per_line as int),
        cell.1 < bytes_per_line,
{
    let distance = position - offset;
    (distance / bytes_per_line, distance % bytes_per_line)
}

/// The position at `row` and `col` of the window at `offset`.
pub fn position(offset: u32, row: u32, col: u32, bytes_per_line: u32) -> (position: u64)
    ensures
        position == position_at(offset as int, row as int, col as int, bytes_per_line as int),
{
    proof {
        lemma_mul_upper_bound(row as int, u32::MAX as int, bytes_per_line as int, u32::MAX as int);
    }
    offset as u64 + row as u64 * bytes_per_line as u64 + col as u64
}

/// Seen from a row boundary, a position's row begins where the row begins
/// that holds the position, and its column is its place in that row.
pub proof fn lemma_row_of_aligned(position: int, offset: int, bytes_per_line: int)
    requires
        bytes_per_line > 0,
        offset % bytes_per_line == 0,
    ensures
        offset + row_of(position, offset, bytes_per_line) * bytes_per_line == row_start(
            position,
            bytes_per_line,
        ),
        col_of(position, offset, bytes_per_line) == position % bytes_per_line,
{
    let d = bytes_per_line;
    let q = (position - offset) / d;
    let r = (position - offset) % d;
    lemma_fundamental_div_mod(position - offset, d);
    lemma_fundamental_div_mod(offset, d);
    assert(position == (q + offset / d) * d + r) by (nonlinear_arith)
        requires
            position - offset == d * q + r,
            offset == d * (offset / d) + offset % d,
            offset % d == 0,
    ;
    lemma_fundamental_div_mod_converse(position, d, q + offset / d, r);
    assert((q + offset / d) * d == offset + q * d) by (nonlinear_arith)
        requires
            offset == d * (offset / d) + offset % d,
            offset % d == 0,
    ;
}

/// What following the cursor achieves: the window still starts on a row
/// boundary, shows the cursor, and has moved no further than it had to.
pub proof fn lemma_scrolled(offset: int, cursor: int, bytes_per_line: int, rows: int)
    requires
        bytes_per_line > 0,
        rows > 0,
        0 <= cursor,
        0 <= offset,
        offset % bytes_per_line == 0,
    ensures
        ({
            let result = scrolled(offset, cursor, bytes_per_line, rows);
            &&& 0 <= result <= cursor
            &&& result % bytes_per_line == 0
            &&& visible(cursor, result, bytes_per_line, rows)
            &&& visible(cursor, offset, bytes_per_line, rows) ==> result == offset
            &&& cursor < offset ==> row_of(cursor, result, bytes_per_line) == 0
            &&& cursor >= offset + rows * bytes_per_line ==> row_of(
                cursor,
                result,
                bytes_per_line,
            ) == rows - 1
        }),
{
    let d = bytes_per_line;
    let start = row_start(cursor, d);
    let result = scrolled(offset, cursor, d, rows);
    lemma_fundamental_div_mod(cursor, d);
    assert(start == (cursor / d) * d) by (nonlinear_arith)
        requires
            cursor == d * (cursor / d) + cursor % d,
            start == cursor - cursor % d,
    ;
    lemma_shift_rows(0, cursor / d, d);
    assert(0 <= cursor % d < d);
    assert(rows * d >= d) by (nonlinear_arith)
        requires
            rows >= 1,
            d >= 0,
    ;
    lemma_mul_is_distributive_sub_other_way(d, rows, 1);
    if cursor < offset {
        lemma_fundamental_div_mod_converse(cursor - start, d, 0, cursor % d);
    } else if cursor >= offset + rows * d {
        lemma_shift_rows(start, -(rows - 1), d);
        assert(start + (-(rows - 1)) * d == result) by (nonlinear_arith)
            requires
                result == start - (rows - 1) * d,
        ;
        // The last row of the old window starts at `edge`. Were the cursor's
        // row to start above it, it would start a whole row above it, and the
        // cursor would be in the old window.
        let edge = offset + (rows - 1) * d;
        assert_by_contradiction!(start >= edge, {
            lemma_shift_rows(offset, rows - 1, d);
            lemma_shift_rows(edge, -(cursor / d), d);
            assert(edge + (-(cursor / d)) * d == edge - start) by (nonlinear_arith)
                requires
                    start == (cursor / d) * d,
            ;
            lemma_multiple_at_least(edge - start, d);
        });
        lemma_fundamental_div_mod_converse(cursor - result, d, rows - 1, cursor % d);
    }
}

} // verus!
