//! The editor's state and how each key changes it.
//!
//! The editor is in one of two modes. In edit mode arrow keys move the
//! cursor and hexadecimal digits overwrite the byte under it, one nibble per
//! key. In command mode keys build a command line that `Enter` carries out.
//! What a key does is given by `EditorView::step`, a function from state and
//! key to state; the methods of `Editor` compute it.

use crate::buffer::{Buffer, SaveError};
use crate::command::{
    command_char, interpret, is_command_char, kind_of, verdict, Effect, Warning, MAX_COMMAND_LEN,
};
use crate::hex::{compose, compose_byte, hex_value, parse_hex_digit};
use crate::key::{KeyCode, KeyEvent};
use crate::text::{with_char, without_last};
use crate::viewport::{clamp, clamped, cursor_delta, scroll, scrolled, MAX_LEN};
use vstd::arithmetic::mul::lemma_mul_upper_bound;
use vstd::prelude::*;
use vstd::string::*;

verus! {

/// What the keys are taken for.
#[derive(Debug)]
pub enum EditorMode {
    /// Keys edit bytes. The payload is the first digit of a byte whose
    /// second digit is still to come.
    Edit(Option<u8>),
    /// Keys build the command line held here.
    Command(String),
}

/// An `EditorMode` with its text as a sequence of characters.
pub enum ModeView {
    Edit(Option<u8>),
    Command(Seq<char>),
}

impl View for EditorMode {
    type V = ModeView;

    open spec fn view(&self) -> ModeView {
        match self {
            EditorMode::Edit(pending) => ModeView::Edit(*pending),
            EditorMode::Command(text) => ModeView::Command(text@),
        }
    }
}

impl ModeView {
    /// A pending digit is a nibble; a command line is at most
    /// `MAX_COMMAND_LEN` lower-case letters and digits.
    pub open spec fn wf(self) -> bool {
        match self {
            ModeView::Edit(pending) => pending matches Some(digit) ==> digit < 16,
            ModeView::Command(text) => {
                &&& text.len() <= MAX_COMMAND_LEN
                &&& forall|i: int| 0 <= i < text.len() ==> command_char(#[trigger] text[i])
            },
        }
    }
}

/// The mode a handler asks for, if it asks for one, by its view.
pub open spec fn mode_view(mode: Option<EditorMode>) -> Option<ModeView> {
    match mode {
        Some(mode) => Some(mode@),
        None => None,
    }
}

/// The hexadecimal digit that `event` types, whatever modifiers are held.
pub open spec fn typed_digit(event: KeyEvent) -> Option<u8> {
    match event.code {
        KeyCode::Char(c) => hex_value(c),
        _ => None,
    }
}

/// The editor's state as plain mathematics.
pub struct EditorView {
    /// The position of the byte under edit.
    pub cursor: int,
    /// The position shown first: the start of the window.
    pub offset: int,
    /// The number of columns.
    pub bytes_per_line: int,
    pub data: Seq<u8>,
    pub dirty: bool,
    pub mode: ModeView,
    pub warning: Option<Warning>,
    pub should_exit: bool,
}

impl EditorView {
    /// The state an editor starts in: at the first byte, the window at the
    /// top, in edit mode with no digit pending, the buffer clean.
    pub open spec fn initial(data: Seq<u8>, bytes_per_line: int) -> EditorView {
        EditorView {
            cursor: 0,
            offset: 0,
            bytes_per_line,
            data,
            dirty: false,
            mode: ModeView::Edit(None),
            warning: None,
            should_exit: false,
        }
    }

    /// The cursor is on a byte of the buffer, or at 0 where the buffer is
    /// empty; the window starts on a row boundary; the mode is well formed.
    pub open spec fn wf(self) -> bool {
        &&& 0 < self.bytes_per_line <= u32::MAX
        &&& self.data.len() <= MAX_LEN
        &&& 0 <= self.cursor
        &&& self.cursor < self.data.len() || self.cursor == 0
        &&& 0 <= self.offset <= u32::MAX
        &&& self.offset % self.bytes_per_line == 0
        &&& self.mode.wf()
    }

    /// The cursor moved by `delta`, as far as the buffer goes.
    pub open spec fn moved(self, delta: int) -> EditorView {
        EditorView { cursor: clamped(self.cursor, delta, self.data.len() as int), ..self }
    }

    /// The window moved to where it shows the cursor among `rows` rows.
    pub open spec fn followed(self, rows: int) -> EditorView {
        EditorView { offset: scrolled(self.offset, self.cursor, self.bytes_per_line, rows), ..self }
    }

    /// The byte under the cursor overwritten with `value`.
    pub open spec fn written(self, value: u8) -> EditorView {
        EditorView { data: self.data.update(self.cursor, value), dirty: true, ..self }
    }

    /// What a key does in edit mode with `pending` as the digit typed so
    /// far: the state after it, and the mode it asks for, if any. A key that
    /// moves the cursor drops the pending digit. A digit is written at once:
    /// the first as the byte's low nibble, the second together with the
    /// first. In an empty buffer there is nothing to write to, and digits do
    /// nothing. The `mode` of the state is left for the caller to set.
    pub open spec fn edit(self, pending: Option<u8>, event: KeyEvent, rows: int) -> (
        EditorView,
        Option<ModeView>,
    ) {
        let delta = cursor_delta(event, self.bytes_per_line, rows);
        if delta != 0 {
            (self.moved(delta).followed(rows), Some(ModeView::Edit(None)))
        } else if typed_digit(event) is Some && self.data.len() > 0 {
            let digit = typed_digit(event).unwrap();
            match pending {
                None => (self.written(digit), Some(ModeView::Edit(Some(digit)))),
                Some(high) => (self.written(compose(high, digit)), Some(ModeView::Edit(None))),
            }
        } else {
            (self, None)
        }
    }

    /// What the command line `text` does when it is entered.
    pub open spec fn executed(self, text: Seq<char>) -> (EditorView, Effect) {
        let outcome = verdict(self.dirty, kind_of(text));
        (
            EditorView {
                warning: if outcome.warning is Some {
                    outcome.warning
                } else {
                    self.warning
                },
                should_exit: self.should_exit || outcome.exit,
                ..self
            },
            outcome.effect,
        )
    }

    /// What a key does in command mode with `text` on the command line: the
    /// state after it, the mode it asks for, if any, and what the front end
    /// is to do. A full line takes no further character and says so.
    /// `Backspace` on an empty line does nothing. `Enter` carries the line
    /// out and empties it.
    pub open spec fn command(self, text: Seq<char>, event: KeyEvent) -> (
        EditorView,
        Option<ModeView>,
        Effect,
    ) {
        match event.code {
            KeyCode::Char(c) => if !command_char(c) {
                (self, None, Effect::Nothing)
            } else if text.len() < MAX_COMMAND_LEN {
                (self, Some(ModeView::Command(text.push(c))), Effect::Nothing)
            } else {
                (
                    EditorView { warning: Some(Warning::CommandTooLong), ..self },
                    Some(ModeView::Command(text)),
                    Effect::Nothing,
                )
            },
            KeyCode::Backspace => if text.len() > 0 {
                (self, Some(ModeView::Command(text.drop_last())), Effect::Nothing)
            } else {
                (self, None, Effect::Nothing)
            },
            KeyCode::Enter => (
                self.executed(text).0,
                Some(ModeView::Command(Seq::empty())),
                self.executed(text).1,
            ),
            _ => (self, None, Effect::Nothing),
        }
    }

    /// The state after storage has answered a save: `ok` says whether it
    /// took the bytes. A clean buffer counts as saved whatever `ok` says.
    pub open spec fn stored(self, ok: bool) -> (EditorView, bool) {
        if !self.dirty {
            (self, true)
        } else if ok {
            (EditorView { dirty: false, ..self }, true)
        } else {
            (EditorView { warning: Some(Warning::WritingFailed), ..self }, false)
        }
    }

    /// The state after the save that an `Effect::Save { exit }` asked for.
    pub open spec fn finished(self, exit: bool, ok: bool) -> EditorView {
        let (state, saved) = self.stored(ok);
        EditorView { should_exit: state.should_exit || (saved && exit), ..state }
    }

    /// What a key does in any mode, before the mode sees it: `Esc` returns
    /// to edit mode with nothing pending, `c` with the control chord asks to
    /// leave, and `:` opens an empty command line.
    pub open spec fn global(self, event: KeyEvent) -> EditorView {
        let mode = if event.code == KeyCode::Esc || event.code == KeyCode::Char(':') {
            if event.code == KeyCode::Esc {
                ModeView::Edit(None)
            } else {
                ModeView::Command(Seq::empty())
            }
        } else {
            self.mode
        };
        let exit = event.code == KeyCode::Char('c') && event.modifiers.control_only();
        EditorView { mode, should_exit: self.should_exit || exit, ..self }
    }

    /// The state with `mode` in place of its mode, where there is one.
    pub open spec fn in_mode(self, mode: Option<ModeView>) -> EditorView {
        match mode {
            Some(mode) => EditorView { mode, ..self },
            None => self,
        }
    }

    /// What a key does: the state after it and what the front end is to do.
    /// The key first acts as it does in any mode and is then handled by the
    /// mode that results, so the `c` of the control chord is also a digit in
    /// edit mode and a letter in command mode.
    pub open spec fn step(self, event: KeyEvent, rows: int) -> (EditorView, Effect) {
        let state = self.global(event);
        match state.mode {
            ModeView::Edit(pending) => (
                state.edit(pending, event, rows).0.in_mode(state.edit(pending, event, rows).1),
                Effect::Nothing,
            ),
            ModeView::Command(text) => (
                state.command(text, event).0.in_mode(state.command(text, event).1),
                state.command(text, event).2,
            ),
        }
    }
}

/// A buffer under edit: where the cursor is, what the window shows, what the
/// keys are taken for, what the status line says, and whether the user has
/// asked to leave.
pub struct Editor {
    cursor: u32,
    bytes_per_line: u32,
    offset: u32,
    buffer: Buffer,
    mode: EditorMode,
    warning: Option<Warning>,
    should_exit: bool,
}

impl View for Editor {
    type V = EditorView;

    closed spec fn view(&self) -> EditorView {
        EditorView {
            cursor: self.cursor as int,
            offset: self.offset as int,
            bytes_per_line: self.bytes_per_line as int,
            data: self.buffer@,
            dirty: self.buffer.dirty(),
            mode: self.mode@,
            warning: self.warning,
            should_exit: self.should_exit,
        }
    }
}

impl Editor {
    /// An editor over `data`, shown `bytes_per_line` bytes to the row.
    pub fn init(data: Vec<u8>, bytes_per_line: u32) -> (editor: Editor)
        requires
            bytes_per_line > 0,
            data@.len() <= MAX_LEN,
        ensures
            editor@ == EditorView::initial(data@, bytes_per_line as int),
            editor@.wf(),
    {
        Editor {
            cursor: 0,
            bytes_per_line,
            offset: 0,
            buffer: Buffer::new(data),
            mode: EditorMode::Edit(None),
            warning: None,
            should_exit: false,
        }
    }

    pub fn cursor(&self) -> (cursor: u32)
        ensures
            cursor == self@.cursor,
    {
        self.cursor
    }

    pub fn offset(&self) -> (offset: u32)
        ensures
            offset == self@.offset,
    {
        self.offset
    }

    pub fn bytes_per_line(&self) -> (bytes_per_line: u32)
        ensures
            bytes_per_line == self@.bytes_per_line,
    {
        self.bytes_per_line
    }

    pub fn buffer(&self) -> (buffer: &Buffer)
        ensures
            buffer@ == self@.data,
            buffer.dirty() == self@.dirty,
    {
        &self.buffer
    }

    pub fn mode(&self) -> (mode: &EditorMode)
        ensures
            mode@ == self@.mode,
    {
        &self.mode
    }

    pub fn should_exit(&self) -> (should_exit: bool)
        ensures
            should_exit == self@.should_exit,
    {
        self.should_exit
    }

    /// The text of the status line's warning; empty where there is none.
    pub fn warning(&self) -> (text: &'static str)
        ensures
            text@ == match self@.warning {
                Some(warning) => warning.message(),
                None => Seq::empty(),
            },
    {
        match self.warning {
            Some(warning) => warning.text(),
            None => {
                proof {
                    reveal_strlit("");
                }
                ""
            },
        }
    }

    /// Takes the warning off the status line. The front end does so once per
    /// key, after it has drawn the screen.
    pub fn clear_warning(&mut self)
        ensures
            final(self)@ == (EditorView { warning: None, ..old(self)@ }),
            old(self)@.wf() ==> final(self)@.wf(),
    {
        self.warning = None;
    }

    /// Overwrites the byte at `index` without moving the cursor.
    pub fn update(&mut self, index: usize, value: u8)
        requires
            index < old(self)@.data.len(),
        ensures
            final(self)@ == (EditorView {
                data: old(self)@.data.update(index as int, value),
                dirty: true,
                ..old(self)@
            }),
            old(self)@.wf() ==> final(self)@.wf(),
    {
        self.buffer.update(index, value);
    }

    /// How far `event` moves the cursor when `max_lines` rows are visible.
    pub fn process_cursor_update(&self, event: KeyEvent, max_lines: u16) -> (cursor_update: i64)
        ensures
            cursor_update == cursor_delta(event, self@.bytes_per_line, max_lines as int),
    {
        let step: i64 = match event.code {
            KeyCode::Down => self.bytes_per_line as i64,
            KeyCode::Up => -(self.bytes_per_line as i64),
            KeyCode::Left => -1,
            KeyCode::Right => 1,
            _ => 0,
        };
        if event.modifiers.is_control_only() {
            proof {
                let size = if step >= 0 {
                    step as int
                } else {
                    -(step as int)
                };
                let rows = max_lines as int;
                lemma_mul_upper_bound(size, u32::MAX as int, rows, u16::MAX as int);
                assert(0 <= size * rows) by (nonlinear_arith)
                    requires
                        size >= 0,
                        rows >= 0,
                ;
                assert(step * rows == size * rows || step * rows == -(size * rows))
                    by (nonlinear_arith)
                    requires
                        size == step || size == -step,
                ;
            }
            step * (max_lines as i64)
        } else {
            step
        }
    }

    /// Moves the cursor by `cursor_update`, stopping at the first and at the
    /// last byte. The window is left where it is.
    pub fn update_cursor(&mut self, cursor_update: i64)
        requires
            old(self)@.wf(),
        ensures
            final(self)@ == old(self)@.moved(cursor_update as int),
            final(self)@.wf(),
    {
        self.cursor = clamp(self.cursor, cursor_update, self.buffer.len());
    }

    /// Handles `event` in edit mode, with `input_buffer` as the digit typed
    /// so far and `max_lines` visible rows. Returns the mode to go on in,
    /// where the key asks for one.
    pub fn process_edit_event(
        &mut self,
        input_buffer: &Option<u8>,
        event: KeyEvent,
        max_lines: u16,
    ) -> (mode: Option<EditorMode>)
        requires
            old(self)@.wf(),
            max_lines > 0,
        ensures
            final(self)@ == old(self)@.edit(*input_buffer, event, max_lines as int).0,
            mode_view(mode) == old(self)@.edit(*input_buffer, event, max_lines as int).1,
            final(self)@.wf(),
    {
        let cursor_update = self.process_cursor_update(event, max_lines);
        if cursor_update != 0 {
            self.update_cursor(cursor_update);
            self.offset = scroll(self.offset, self.cursor, self.bytes_per_line, max_lines as u32);
            return Some(EditorMode::Edit(None));
        }
        if let KeyCode::Char(c) = event.code {
            if let Some(value) = parse_hex_digit(c) {
                if self.buffer.len() > 0 {
                    return match input_buffer {
                        None => {
                            self.buffer.update(self.cursor as usize, value);
                            Some(EditorMode::Edit(Some(value)))
                        },
                        Some(previous_value) => {
                            self.buffer.update(
                                self.cursor as usize,
                                compose_byte(*previous_value, value),
                            );
                            Some(EditorMode::Edit(None))
                        },
                    };
                }
            }
        }
        None
    }

    /// Handles `event` in command mode, with `command` as the line typed so
    /// far. Returns the mode to go on in, where the key asks for one, and
    /// what the front end is to do.
    pub fn process_command_event(&mut self, command: &String, event: KeyEvent) -> (result: (
        Option<EditorMode>,
        Effect,
    ))
        ensures
            final(self)@ == old(self)@.command(command@, event).0,
            mode_view(result.0) == old(self)@.command(command@, event).1,
            result.1 == old(self)@.command(command@, event).2,
            old(self)@.wf() ==> final(self)@.wf(),
    {
        match event.code {
            KeyCode::Char(c) => {
                if !is_command_char(c) {
                    return (None, Effect::Nothing);
                }
                if command.as_str().unicode_len() < MAX_COMMAND_LEN {
                    (Some(EditorMode::Command(with_char(command.as_str(), c))), Effect::Nothing)
                } else {
                    self.warning = Some(Warning::CommandTooLong);
                    (Some(EditorMode::Command(command.clone())), Effect::Nothing)
                }
            },
            KeyCode::Backspace => {
                if command.as_str().unicode_len() > 0 {
                    (Some(EditorMode::Command(without_last(command.as_str()))), Effect::Nothing)
                } else {
                    (None, Effect::Nothing)
                }
            },
            KeyCode::Enter => {
                let effect = self.process_command(command.as_str());
                (Some(EditorMode::Command(String::new())), effect)
            },
            _ => (None, Effect::Nothing),
        }
    }

    /// Carries out the command line `value`. A command that needs the
    /// buffer written does not write it: it returns `Effect::Save`, and the
    /// write's result goes to `finish_save`.
    pub fn process_command(&mut self, value: &str) -> (effect: Effect)
        ensures
            final(self)@ == old(self)@.executed(value@).0,
            effect == old(self)@.executed(value@).1,
            old(self)@.wf() ==> final(self)@.wf(),
    {
        let outcome = interpret(self.buffer.is_dirty(), value);
        if outcome.warning.is_some() {
            self.warning = outcome.warning;
        }
        if outcome.exit {
            self.should_exit = true;
        }
        outcome.effect
    }

    /// Takes note of how writing the buffer to storage went, and returns
    /// whether the buffer is saved. A clean buffer is, without any write, and
    /// `stored` is then not looked at.
    pub fn save(&mut self, stored: Result<(), SaveError>) -> (saved: bool)
        ensures
            final(self)@ == old(self)@.stored(stored is Ok).0,
            saved == old(self)@.stored(stored is Ok).1,
            old(self)@.wf() ==> final(self)@.wf(),
    {
        if !self.buffer.is_dirty() {
            return true;
        }
        match self.buffer.save(stored) {
            Ok(_) => true,
            Err(_) => {
                self.warning = Some(Warning::WritingFailed);
                false
            },
        }
    }

    /// Finishes what `Effect::Save { exit }` began: `stored` is the result
    /// of writing the buffer's bytes. The editor asks to leave if the bytes
    /// are saved and `exit` is set.
    pub fn finish_save(&mut self, exit: bool, stored: Result<(), SaveError>)
        ensures
            final(self)@ == old(self)@.finished(exit, stored is Ok),
            old(self)@.wf() ==> final(self)@.wf(),
    {
        if self.save(stored) && exit {
            self.should_exit = true;
        }
    }

    /// Handles one key press with `max_lines` rows visible, and returns what
    /// the front end is to do before the next.
    pub fn process_event(&mut self, event: KeyEvent, max_lines: u16) -> (effect: Effect)
        requires
            old(self)@.wf(),
            max_lines > 0,
        ensures
            final(self)@ == old(self)@.step(event, max_lines as int).0,
            effect == old(self)@.step(event, max_lines as int).1,
            final(self)@.wf(),
    {
        if event.code == KeyCode::Esc {
            self.mode = EditorMode::Edit(None);
        }
        if let KeyCode::Char(c) = event.code {
            if c == 'c' && event.modifiers.is_control_only() {
                self.should_exit = true;
            } else if c == ':' {
                self.mode = EditorMode::Command(String::new());
            }
        }
        let mut old_mode = EditorMode::Edit(None);
        core::mem::swap(&mut self.mode, &mut old_mode);
        let (new_mode, effect) = match &old_mode {
            EditorMode::Edit(value) => {
                let mode = self.process_edit_event(value, event, max_lines);
                (mode, Effect::Nothing)
            },
            EditorMode::Command(value) => self.process_command_event(value, event),
        };
        self.mode = match new_mode {
            Some(mode) => mode,
            None => old_mode,
        };
        effect
    }
}

} // verus!
