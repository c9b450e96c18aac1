use ashe::{Editor, EditorMode, Effect, KeyCode, KeyEvent, KeyModifiers, SaveError};

fn setup_test_editor() -> Editor {
    Editor::init([0xa, 0xb, 0xc].repeat(100), 16)
}

fn key(code: KeyCode) -> KeyEvent {
    KeyEvent::new(code, KeyModifiers::none())
}

fn failed() -> Result<(), SaveError> {
    Err(SaveError { reason: String::from("disk full") })
}

fn command_text(editor: &Editor) -> Option<String> {
    match editor.mode() {
        EditorMode::Command(text) => Some(text.clone()),
        EditorMode::Edit(_) => None,
    }
}

fn pending(editor: &Editor) -> Option<Option<u8>> {
    match editor.mode() {
        EditorMode::Edit(pending) => Some(*pending),
        EditorMode::Command(_) => None,
    }
}

fn type_text(editor: &mut Editor, text: &str) {
    for c in text.chars() {
        editor.process_event(key(KeyCode::Char(c)), 16);
    }
}

#[test]
fn test_editor_update_cursor() {
    let mut editor = setup_test_editor();
    editor.update_cursor(5);
    assert_eq!(editor.cursor(), 5);
    editor.update_cursor(-2);
    assert_eq!(editor.cursor(), 3);
    editor.update_cursor(340);
    assert_eq!(editor.cursor(), 299);
    editor.update_cursor(-1000);
    assert_eq!(editor.cursor(), 0);
}

#[test]
fn test_process_edit_event() {
    let mut editor = setup_test_editor();
    assert_eq!(editor.buffer()[editor.cursor() as usize], 0xa);
    let event = KeyEvent::new(KeyCode::Char('2'), KeyModifiers::none());
    let input_buffer = None;
    let new_mode = editor.process_edit_event(&input_buffer, event, 16);
    assert!(matches!(new_mode, Some(EditorMode::Edit(Some(2)))));
    assert_eq!(editor.buffer()[editor.cursor() as usize], 0x02);

    let event = KeyEvent::new(KeyCode::Char('1'), KeyModifiers::none());
    let input_buffer = Some(0x2);
    let new_mode = editor.process_edit_event(&input_buffer, event, 16);
    assert!(matches!(new_mode, Some(EditorMode::Edit(None))));
    assert_eq!(editor.buffer()[editor.cursor() as usize], 0x21);
}

#[test]
fn test_process_command_event() {
    let mut editor = setup_test_editor();
    let command = String::from("abc");
    let event = KeyEvent::new(KeyCode::Backspace, KeyModifiers::none());
    let (new_mode, _) = editor.process_command_event(&command, event);
    assert!(matches!(new_mode, Some(EditorMode::Command(_))));
    assert_eq!(
        match new_mode {
            Some(EditorMode::Command(value)) => value,
            _ => "".into(),
        },
        "ab"
    );

    editor.update(0, 0x12);
    assert!(editor.buffer().is_dirty());

    let command = String::from("w");
    let event = KeyEvent::new(KeyCode::Enter, KeyModifiers::none());
    let (_, effect) = editor.process_command_event(&command, event);
    assert_eq!(effect, Effect::Save { exit: false });
    editor.finish_save(false, Ok(()));
    assert!(!editor.buffer().is_dirty());

    let command = String::from("q");
    let event = KeyEvent::new(KeyCode::Enter, KeyModifiers::none());
    editor.process_command_event(&command, event);
    assert!(editor.should_exit());

    editor.update(0, 0x12);
    assert!(editor.buffer().is_dirty());

    let command = String::from("wq");
    let event = KeyEvent::new(KeyCode::Enter, KeyModifiers::none());
    let (_, effect) = editor.process_command_event(&command, event);
    assert_eq!(effect, Effect::Save { exit: true });
    editor.finish_save(true, Ok(()));
    assert!(!editor.buffer().is_dirty());
    assert!(editor.should_exit());
}

#[test]
fn test_process_command() {
    let mut editor = setup_test_editor();
    let command = "exit";

    editor.process_command(command);
    assert!(editor.should_exit());

    let mut editor = setup_test_editor();
    editor.update(0, 0x12);
    assert!(editor.buffer().is_dirty());
    editor.process_command(command);
    assert!(!editor.should_exit());
    assert!(!editor.warning().is_empty());

    let command = "wq";
    assert!(editor.buffer().is_dirty());
    let effect = editor.process_command(command);
    assert_eq!(effect, Effect::Save { exit: true });
    editor.finish_save(true, Ok(()));
    assert!(editor.should_exit());
}

#[test]
fn test_process_cursor_update() {
    let editor = setup_test_editor();
    let max_lines = 10;

    let event = KeyEvent::new(KeyCode::Left, KeyModifiers::none());
    assert_eq!(editor.process_cursor_update(event, max_lines), -1);
    let event = KeyEvent::new(KeyCode::Right, KeyModifiers::none());
    assert_eq!(editor.process_cursor_update(event, max_lines), 1);
    let event = KeyEvent::new(KeyCode::Down, KeyModifiers::none());
    assert_eq!(
        editor.process_cursor_update(event, max_lines),
        editor.bytes_per_line() as i64
    );
    let event = KeyEvent::new(KeyCode::Up, KeyModifiers::none());
    assert_eq!(
        editor.process_cursor_update(event, max_lines),
        -(editor.bytes_per_line() as i64)
    );

    let event = KeyEvent::new(KeyCode::Left, KeyModifiers::control());
    assert_eq!(
        editor.process_cursor_update(event, max_lines),
        -(max_lines as i64)
    );
    let event = KeyEvent::new(KeyCode::Right, KeyModifiers::control());
    assert_eq!(
        editor.process_cursor_update(event, max_lines),
        max_lines as i64
    );
    let event = KeyEvent::new(KeyCode::Down, KeyModifiers::control());
    assert_eq!(
        editor.process_cursor_update(event, max_lines),
        editor.bytes_per_line() as i64 * max_lines as i64
    );
    let event = KeyEvent::new(KeyCode::Up, KeyModifiers::control());
    assert_eq!(
        editor.process_cursor_update(event, max_lines),
        -(editor.bytes_per_line() as i64 * max_lines as i64)
    );
}

#[test]
fn initial_state() {
    let editor = Editor::init(vec![1, 2, 3], 8);
    assert_eq!(editor.cursor(), 0);
    assert_eq!(editor.offset(), 0);
    assert_eq!(editor.bytes_per_line(), 8);
    assert_eq!(pending(&editor), Some(None));
    assert_eq!(editor.warning(), "");
    assert!(!editor.should_exit());
    assert!(!editor.buffer().is_dirty());
    assert_eq!(editor.buffer().data(), &vec![1, 2, 3]);
}

#[test]
fn clamp_stays_inside_for_many_deltas() {
    for delta in [i64::MIN, -5_000_000_000, -300, -1, 0, 1, 298, 299, 300, 5_000_000_000, i64::MAX]
    {
        for start in [0i64, 1, 150, 298, 299] {
            let mut editor = setup_test_editor();
            editor.update_cursor(start);
            editor.update_cursor(delta);
            let expected = (start as i128 + delta as i128).clamp(0, 299);
            assert_eq!(editor.cursor() as i128, expected);
        }
    }
}

#[test]
fn clamp_in_single_byte_buffer() {
    let mut editor = Editor::init(vec![0x55], 16);
    editor.update_cursor(7);
    assert_eq!(editor.cursor(), 0);
    editor.update_cursor(-7);
    assert_eq!(editor.cursor(), 0);
}

#[test]
fn empty_buffer_keeps_cursor_at_zero_and_ignores_digits() {
    let mut editor = Editor::init(vec![], 16);
    editor.update_cursor(10);
    assert_eq!(editor.cursor(), 0);
    editor.update_cursor(-10);
    assert_eq!(editor.cursor(), 0);
    assert_eq!(editor.process_event(key(KeyCode::Right), 16), Effect::Nothing);
    assert_eq!(editor.cursor(), 0);
    assert_eq!(editor.offset(), 0);
    assert_eq!(editor.process_event(key(KeyCode::Char('a')), 16), Effect::Nothing);
    assert_eq!(pending(&editor), Some(None));
    assert!(!editor.buffer().is_dirty());
    assert_eq!(editor.buffer().len(), 0);
}

#[test]
fn scenario_two_digits_make_a_byte() {
    let mut editor = Editor::init(vec![0x0a, 0x0b, 0x0c], 16);
    editor.process_event(key(KeyCode::Char('2')), 16);
    assert_eq!(editor.buffer()[0], 0x02);
    assert_eq!(pending(&editor), Some(Some(2)));
    assert!(editor.buffer().is_dirty());
    editor.process_event(key(KeyCode::Char('1')), 16);
    assert_eq!(editor.buffer()[0], 0x21);
    assert_eq!(pending(&editor), Some(None));
    assert_eq!(editor.cursor(), 0);
    assert_eq!(editor.buffer().data(), &vec![0x21, 0x0b, 0x0c]);
}

#[test]
fn every_digit_pair_composes() {
    let digits = "0123456789abcdef";
    for (a, first) in digits.chars().enumerate() {
        for (b, second) in digits.chars().enumerate() {
            let mut editor = Editor::init(vec![0xee, 0xee], 16);
            editor.process_event(key(KeyCode::Char(first)), 4);
            assert_eq!(editor.buffer()[0], a as u8);
            assert_eq!(pending(&editor), Some(Some(a as u8)));
            editor.process_event(key(KeyCode::Char(second)), 4);
            assert_eq!(editor.buffer()[0], ((a << 4) | b) as u8);
            assert_eq!(pending(&editor), Some(None));
            assert_eq!(editor.buffer()[1], 0xee);
        }
    }
}

#[test]
fn upper_case_and_other_characters_are_no_digits() {
    let mut editor = Editor::init(vec![0x11], 16);
    for c in ['A', 'F', 'g', 'z', ' ', '/', '@', '`', 'é'] {
        assert_eq!(editor.process_event(key(KeyCode::Char(c)), 16), Effect::Nothing);
        assert_eq!(editor.buffer()[0], 0x11);
        assert!(!editor.buffer().is_dirty());
        assert_eq!(pending(&editor), Some(None));
    }
}

#[test]
fn navigation_drops_pending_digit() {
    let mut editor = Editor::init(vec![0x0a, 0x0b, 0x0c], 16);
    editor.process_event(key(KeyCode::Char('f')), 16);
    assert_eq!(pending(&editor), Some(Some(0xf)));
    editor.process_event(key(KeyCode::Right), 16);
    assert_eq!(pending(&editor), Some(None));
    assert_eq!(editor.cursor(), 1);
    editor.process_event(key(KeyCode::Char('3')), 16);
    assert_eq!(editor.buffer().data(), &vec![0x0f, 0x03, 0x0c]);
    assert_eq!(pending(&editor), Some(Some(3)));
}

#[test]
fn navigation_against_the_edge_still_drops_pending_digit() {
    let mut editor = Editor::init(vec![0x0a, 0x0b], 16);
    editor.process_event(key(KeyCode::Char('7')), 16);
    editor.process_event(key(KeyCode::Left), 16);
    assert_eq!(editor.cursor(), 0);
    assert_eq!(pending(&editor), Some(None));
    editor.process_event(key(KeyCode::Char('1')), 16);
    assert_eq!(editor.buffer()[0], 0x01);
}

#[test]
fn arrows_move_by_a_byte_or_a_row() {
    let mut editor = setup_test_editor();
    editor.process_event(key(KeyCode::Down), 10);
    assert_eq!(editor.cursor(), 16);
    editor.process_event(key(KeyCode::Right), 10);
    assert_eq!(editor.cursor(), 17);
    editor.process_event(key(KeyCode::Up), 10);
    assert_eq!(editor.cursor(), 1);
    editor.process_event(key(KeyCode::Left), 10);
    assert_eq!(editor.cursor(), 0);
    editor.process_event(key(KeyCode::Up), 10);
    assert_eq!(editor.cursor(), 0);
    assert_eq!(editor.offset(), 0);
}

#[test]
fn control_multiplies_the_step_by_the_rows() {
    let mut editor = setup_test_editor();
    editor.process_event(KeyEvent::new(KeyCode::Right, KeyModifiers::control()), 10);
    assert_eq!(editor.cursor(), 10);
    editor.process_event(KeyEvent::new(KeyCode::Down, KeyModifiers::control()), 10);
    assert_eq!(editor.cursor(), 170);
    assert_eq!(editor.offset(), 16);
    editor.process_event(KeyEvent::new(KeyCode::Down, KeyModifiers::control()), 10);
    assert_eq!(editor.cursor(), 299);
    assert_eq!(editor.offset(), 144);
    editor.process_event(KeyEvent::new(KeyCode::Up, KeyModifiers::control()), 10);
    assert_eq!(editor.cursor(), 139);
    assert_eq!(editor.offset(), 128);
}

#[test]
fn control_with_shift_is_an_ordinary_step() {
    let mut editor = setup_test_editor();
    editor.process_event(KeyEvent::new(KeyCode::Right, KeyModifiers::from_bits(3)), 10);
    assert_eq!(editor.cursor(), 1);
    assert_eq!(
        editor.process_cursor_update(KeyEvent::new(KeyCode::Down, KeyModifiers::from_bits(1)), 10),
        16
    );
}

#[test]
fn scenario_down_from_last_visible_row() {
    let mut editor = setup_test_editor();
    for _ in 0..9 {
        editor.process_event(key(KeyCode::Down), 10);
    }
    assert_eq!(editor.cursor(), 144);
    assert_eq!(editor.offset(), 0);
    editor.process_event(key(KeyCode::Down), 10);
    assert_eq!(editor.offset(), 16);
    assert_eq!(editor.cursor(), 160);
    assert_eq!((editor.cursor() - editor.offset()) / 16, 9);
    assert_eq!((editor.cursor() - editor.offset()) % 16, 0);
}

#[test]
fn up_from_first_visible_row_scrolls_back_one_row() {
    let mut editor = setup_test_editor();
    for _ in 0..12 {
        editor.process_event(key(KeyCode::Down), 10);
    }
    assert_eq!(editor.offset(), 48);
    for _ in 0..9 {
        editor.process_event(key(KeyCode::Up), 10);
    }
    assert_eq!(editor.cursor(), 48);
    assert_eq!(editor.offset(), 48);
    editor.process_event(key(KeyCode::Up), 10);
    assert_eq!(editor.cursor(), 32);
    assert_eq!(editor.offset(), 32);
}

#[test]
fn window_follows_after_update_cursor_alone() {
    let mut editor = setup_test_editor();
    editor.update_cursor(250);
    assert_eq!(editor.offset(), 0);
    editor.process_event(key(KeyCode::Right), 4);
    assert_eq!(editor.cursor(), 251);
    assert_eq!(editor.offset(), 192);
    editor.update_cursor(-251);
    editor.process_event(key(KeyCode::Right), 4);
    assert_eq!(editor.cursor(), 1);
    assert_eq!(editor.offset(), 0);
}

#[test]
fn other_keys_change_nothing_in_edit_mode() {
    let mut editor = setup_test_editor();
    editor.process_event(key(KeyCode::Char('4')), 10);
    for code in [KeyCode::Enter, KeyCode::Backspace, KeyCode::Other, KeyCode::Char('x')] {
        assert_eq!(editor.process_event(key(code), 10), Effect::Nothing);
        assert_eq!(pending(&editor), Some(Some(4)));
        assert_eq!(editor.cursor(), 0);
    }
}

#[test]
fn escape_returns_to_edit_mode() {
    let mut editor = setup_test_editor();
    editor.process_event(key(KeyCode::Char(':')), 10);
    type_text(&mut editor, "wri");
    assert_eq!(command_text(&editor), Some(String::from("wri")));
    editor.process_event(key(KeyCode::Esc), 10);
    assert_eq!(pending(&editor), Some(None));

    editor.process_event(key(KeyCode::Char('5')), 10);
    assert_eq!(pending(&editor), Some(Some(5)));
    editor.process_event(key(KeyCode::Esc), 10);
    assert_eq!(pending(&editor), Some(None));
}

#[test]
fn colon_opens_an_empty_command_line() {
    let mut editor = setup_test_editor();
    editor.process_event(key(KeyCode::Char('9')), 10);
    editor.process_event(key(KeyCode::Char(':')), 10);
    assert_eq!(command_text(&editor), Some(String::new()));
    type_text(&mut editor, "ab");
    editor.process_event(key(KeyCode::Char(':')), 10);
    assert_eq!(command_text(&editor), Some(String::new()));
}

#[test]
fn control_c_asks_to_leave() {
    let mut editor = setup_test_editor();
    editor.process_event(key(KeyCode::Char(':')), 10);
    editor.process_event(KeyEvent::new(KeyCode::Char('c'), KeyModifiers::control()), 10);
    assert!(editor.should_exit());
    assert_eq!(command_text(&editor), Some(String::from("c")));
}

#[test]
fn control_c_in_edit_mode_is_also_a_digit() {
    let mut editor = setup_test_editor();
    editor.process_event(KeyEvent::new(KeyCode::Char('c'), KeyModifiers::control()), 10);
    assert!(editor.should_exit());
    assert_eq!(editor.buffer()[0], 0x0c);
    assert_eq!(pending(&editor), Some(Some(0xc)));
}

#[test]
fn plain_c_does_not_ask_to_leave() {
    let mut editor = setup_test_editor();
    editor.process_event(key(KeyCode::Char('c')), 10);
    assert!(!editor.should_exit());
}

#[test]
fn command_line_takes_letters_and_digits_only() {
    let mut editor = setup_test_editor();
    editor.process_event(key(KeyCode::Char(':')), 10);
    type_text(&mut editor, "aZ z-09_");
    assert_eq!(command_text(&editor), Some(String::from("az09")));
    assert_eq!(editor.warning(), "");
}

#[test]
fn command_line_stops_at_sixteen_characters() {
    let mut editor = setup_test_editor();
    editor.process_event(key(KeyCode::Char(':')), 10);
    type_text(&mut editor, "abcdefghijklmnop");
    assert_eq!(command_text(&editor), Some(String::from("abcdefghijklmnop")));
    assert_eq!(editor.warning(), "");
    editor.process_event(key(KeyCode::Char('q')), 10);
    assert_eq!(command_text(&editor), Some(String::from("abcdefghijklmnop")));
    assert_eq!(editor.warning(), "Cmd too long");
}

#[test]
fn process_command_event_appends_one_character() {
    let mut editor = setup_test_editor();
    let (mode, effect) = editor.process_command_event(&String::from("abc"), key(KeyCode::Char('d')));
    assert_eq!(effect, Effect::Nothing);
    match mode {
        Some(EditorMode::Command(text)) => assert_eq!(text, "abcd"),
        other => panic!("unexpected mode {:?}", other),
    }
}

#[test]
fn process_command_event_on_full_line_warns() {
    let mut editor = setup_test_editor();
    let full = String::from("0123456789abcdef");
    let (mode, effect) = editor.process_command_event(&full, key(KeyCode::Char('x')));
    assert_eq!(effect, Effect::Nothing);
    match mode {
        Some(EditorMode::Command(text)) => assert_eq!(text, full),
        other => panic!("unexpected mode {:?}", other),
    }
    assert_eq!(editor.warning(), "Cmd too long");
}

#[test]
fn backspace_on_empty_command_line_does_nothing() {
    let mut editor = setup_test_editor();
    let (mode, effect) = editor.process_command_event(&String::new(), key(KeyCode::Backspace));
    assert!(mode.is_none());
    assert_eq!(effect, Effect::Nothing);

    editor.process_event(key(KeyCode::Char(':')), 10);
    editor.process_event(key(KeyCode::Backspace), 10);
    assert_eq!(command_text(&editor), Some(String::new()));
    assert_eq!(editor.warning(), "");
}

#[test]
fn backspace_removes_the_last_character() {
    let mut editor = setup_test_editor();
    editor.process_event(key(KeyCode::Char(':')), 10);
    type_text(&mut editor, "wq");
    editor.process_event(key(KeyCode::Backspace), 10);
    assert_eq!(command_text(&editor), Some(String::from("w")));
    editor.process_event(key(KeyCode::Backspace), 10);
    assert_eq!(command_text(&editor), Some(String::new()));
}

#[test]
fn arrows_do_nothing_in_command_mode() {
    let mut editor = setup_test_editor();
    editor.process_event(key(KeyCode::Char(':')), 10);
    type_text(&mut editor, "w");
    for code in [KeyCode::Down, KeyCode::Up, KeyCode::Left, KeyCode::Right, KeyCode::Other] {
        assert_eq!(editor.process_event(key(code), 10), Effect::Nothing);
    }
    assert_eq!(editor.cursor(), 0);
    assert_eq!(command_text(&editor), Some(String::from("w")));
}

#[test]
fn enter_empties_the_line_and_stays_in_command_mode() {
    let mut editor = setup_test_editor();
    editor.process_event(key(KeyCode::Char(':')), 10);
    type_text(&mut editor, "bogus");
    assert_eq!(editor.process_event(key(KeyCode::Enter), 10), Effect::Nothing);
    assert_eq!(command_text(&editor), Some(String::new()));
    assert_eq!(editor.warning(), "Invalid command");
    assert!(!editor.should_exit());
}

#[test]
fn empty_command_is_invalid() {
    let mut editor = setup_test_editor();
    assert_eq!(editor.process_command(""), Effect::Nothing);
    assert_eq!(editor.warning(), "Invalid command");
}

#[test]
fn quit_aliases_leave_a_clean_buffer() {
    for command in ["exit", "quit", "q", "x"] {
        let mut editor = setup_test_editor();
        assert_eq!(editor.process_command(command), Effect::Nothing);
        assert!(editor.should_exit());
        assert_eq!(editor.warning(), "");
    }
}

#[test]
fn quit_aliases_are_refused_on_a_dirty_buffer() {
    for command in ["exit", "quit", "q", "x"] {
        let mut editor = setup_test_editor();
        editor.update(3, 1);
        assert_eq!(editor.process_command(command), Effect::Nothing);
        assert!(!editor.should_exit());
        assert_eq!(editor.warning(), "Modified Buffer");
        assert!(editor.buffer().is_dirty());
    }
}

#[test]
fn write_aliases_ask_for_a_save_only_when_dirty() {
    for command in ["write", "w"] {
        let mut editor = setup_test_editor();
        assert_eq!(editor.process_command(command), Effect::Nothing);
        assert!(!editor.should_exit());
        assert_eq!(editor.warning(), "");
        editor.update(0, 0);
        assert_eq!(editor.process_command(command), Effect::Save { exit: false });
        assert!(!editor.should_exit());
    }
}

#[test]
fn write_quit_aliases() {
    for command in ["wq", "qw"] {
        let mut editor = setup_test_editor();
        assert_eq!(editor.process_command(command), Effect::Nothing);
        assert!(editor.should_exit());

        let mut editor = setup_test_editor();
        editor.update(0, 0);
        assert_eq!(editor.process_command(command), Effect::Save { exit: true });
        assert!(!editor.should_exit());
    }
}

#[test]
fn commands_are_case_and_length_exact() {
    for command in ["Exit", "wqq", "ww", "writ", "quit1", "e", "qq"] {
        let mut editor = setup_test_editor();
        assert_eq!(editor.process_command(command), Effect::Nothing);
        assert!(!editor.should_exit());
        assert_eq!(editor.warning(), "Invalid command");
    }
}

#[test]
fn scenario_exit_refused_then_write_quit() {
    let mut editor = setup_test_editor();
    editor.process_event(key(KeyCode::Char('1')), 10);
    assert!(editor.buffer().is_dirty());
    editor.process_event(key(KeyCode::Char(':')), 10);
    type_text(&mut editor, "exit");
    assert_eq!(editor.process_event(key(KeyCode::Enter), 10), Effect::Nothing);
    assert!(!editor.should_exit());
    assert_eq!(editor.warning(), "Modified Buffer");

    editor.clear_warning();
    type_text(&mut editor, "wq");
    let effect = editor.process_event(key(KeyCode::Enter), 10);
    assert_eq!(effect, Effect::Save { exit: true });
    let written = editor.buffer().data().clone();
    editor.finish_save(true, Ok(()));
    assert_eq!(written[0], 0x01);
    assert!(!editor.buffer().is_dirty());
    assert!(editor.should_exit());
    assert_eq!(editor.warning(), "");
}

#[test]
fn failed_save_warns_and_keeps_the_buffer_dirty() {
    let mut editor = setup_test_editor();
    editor.update(0, 0x12);
    assert_eq!(editor.process_command("wq"), Effect::Save { exit: true });
    editor.finish_save(true, failed());
    assert!(editor.buffer().is_dirty());
    assert!(!editor.should_exit());
    assert_eq!(editor.warning(), "Writing failed");
    assert_eq!(editor.buffer()[0], 0x12);
}

#[test]
fn save_reports_whether_the_buffer_is_saved() {
    let mut editor = setup_test_editor();
    assert!(editor.save(failed()));
    assert_eq!(editor.warning(), "");
    editor.update(0, 0x12);
    assert!(!editor.save(failed()));
    assert_eq!(editor.warning(), "Writing failed");
    assert!(editor.buffer().is_dirty());
    assert!(editor.save(Ok(())));
    assert!(!editor.buffer().is_dirty());
}

#[test]
fn finish_save_without_exit_stays() {
    let mut editor = setup_test_editor();
    editor.update(0, 0x12);
    editor.finish_save(false, Ok(()));
    assert!(!editor.buffer().is_dirty());
    assert!(!editor.should_exit());
}

#[test]
fn clear_warning_empties_the_status_text() {
    let mut editor = setup_test_editor();
    editor.process_command("nonsense");
    assert_eq!(editor.warning(), "Invalid command");
    editor.clear_warning();
    assert_eq!(editor.warning(), "");
}

#[test]
fn update_writes_through_to_the_buffer() {
    let mut editor = setup_test_editor();
    editor.update(299, 0x7f);
    assert_eq!(editor.buffer()[299], 0x7f);
    assert!(editor.buffer().is_dirty());
    assert_eq!(editor.cursor(), 0);
}
