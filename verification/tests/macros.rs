use helix_win_runner::keyboard_macro::{
    helix_change_directory, helix_open_file, one_based, paste_keys, paste_restore, quote,
    ClipAction, Key, KeyEvent,
};

fn prefix() -> Vec<KeyEvent> {
    vec![
        KeyEvent::Click(Key::Escape),
        KeyEvent::Down(Key::Shift),
        KeyEvent::Click(Key::Layout(';')),
        KeyEvent::Up(Key::Shift),
    ]
}

fn quoted(text: &str) -> Vec<KeyEvent> {
    vec![
        KeyEvent::Down(Key::Shift),
        KeyEvent::Click(Key::Layout('\'')),
        KeyEvent::Up(Key::Shift),
        KeyEvent::Text(text.to_string()),
        KeyEvent::Down(Key::Shift),
        KeyEvent::Click(Key::Layout('\'')),
        KeyEvent::Up(Key::Shift),
    ]
}

#[test]
fn open_file_line_five_no_column_jump() {
    let line = one_based(Some(4));
    let column = one_based(Some(0));
    assert_eq!(line, 5);
    assert_eq!(column, 1);
    let events = helix_open_file("src/main.rs", line, column, false);

    let mut expected = prefix();
    expected.push(KeyEvent::Text("o ".to_string()));
    expected.extend(quoted("src/main.rs"));
    expected.push(KeyEvent::Click(Key::Return));
    expected.push(KeyEvent::Text("5gg".to_string()));
    assert_eq!(events, expected);
}

#[test]
fn open_file_emits_column_jump_past_first_column() {
    let events = helix_open_file("f.rs", 12, 7, false);
    assert_eq!(events.last(), Some(&KeyEvent::Text("7l".to_string())));
    let second_last = &events[events.len() - 2];
    assert_eq!(second_last, &KeyEvent::Text("12gg".to_string()));
}

#[test]
fn open_file_pastes_unquoted() {
    let events = helix_open_file("src/main.rs", 5, 1, true);
    let mut expected = prefix();
    expected.push(KeyEvent::Paste("o src/main.rs".to_string()));
    expected.push(KeyEvent::Click(Key::Return));
    expected.push(KeyEvent::Text("5gg".to_string()));
    assert_eq!(events, expected);
}

#[test]
fn change_directory_types_quoted() {
    let events = helix_change_directory("/home/u/proj", false);
    let mut expected = prefix();
    expected.push(KeyEvent::Text("cd ".to_string()));
    expected.extend(quoted("/home/u/proj"));
    expected.push(KeyEvent::Click(Key::Return));
    assert_eq!(events, expected);
}

#[test]
fn change_directory_pastes_with_quotes_in_payload() {
    let events = helix_change_directory("C:/dir", true);
    let mut expected = prefix();
    expected.push(KeyEvent::Paste("cd \"C:/dir\"".to_string()));
    expected.push(KeyEvent::Click(Key::Return));
    assert_eq!(events, expected);
}

#[test]
fn quote_wraps_with_shifted_quote_key() {
    let mut events = vec![KeyEvent::Text("x".to_string())];
    quote(&mut events);
    assert_eq!(
        events,
        vec![
            KeyEvent::Text("x".to_string()),
            KeyEvent::Down(Key::Shift),
            KeyEvent::Click(Key::Layout('\'')),
            KeyEvent::Up(Key::Shift),
        ]
    );
}

#[test]
fn paste_keystroke_holds_control_around_v() {
    assert_eq!(
        paste_keys(),
        vec![
            KeyEvent::Down(Key::Control),
            KeyEvent::Down(Key::Layout('v')),
            KeyEvent::Up(Key::Layout('v')),
            KeyEvent::Up(Key::Control),
        ]
    );
}

#[test]
fn paste_restore_cycle_order_is_fixed() {
    assert_eq!(
        paste_restore("cd \"C:/dir\""),
        vec![
            ClipAction::OpenWithRetry(10),
            ClipAction::SaveSnapshot,
            ClipAction::SetText("cd \"C:/dir\"".to_string()),
            ClipAction::CloseClipboard,
            ClipAction::SleepMs(50),
            ClipAction::SendPasteKeys,
            ClipAction::SleepMs(50),
            ClipAction::RestoreIfSaved(10),
        ]
    );
}

#[test]
fn one_based_defaults_to_first_position() {
    assert_eq!(one_based(None), 1);
    assert_eq!(one_based(Some(41)), 42);
}
