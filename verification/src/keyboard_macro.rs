//! The command macros: the two fixed command templates of the text-command
//! interface, rendered as the exact sequences of key events (or clipboard
//! actions) the application layer synthesizes into the focused window.

use vstd::prelude::*;

use crate::text::{dec_str, u32_to_string};

verus! {

/// A key the injector can press: the literal control keys and the layout
/// key for one character.
#[derive(Clone, Copy, Debug, PartialEq, Eq, Structural)]
pub enum Key {
    Escape,
    Return,
    Control,
    Shift,
    Layout(char),
}

/// One step of an injection sequence: a key held down, released or clicked,
/// a literal text typed character by character, or a payload delivered
/// through the clipboard-swap strategy.
#[derive(Debug, PartialEq, Eq)]
pub enum KeyEvent {
    Down(Key),
    Up(Key),
    Click(Key),
    Text(String),
    Paste(String),
}

/// A key event with its text payloads as character sequences, the form the
/// contracts speak of.
#[verifier::ext_equal]
pub enum KeyEventView {
    Down(Key),
    Up(Key),
    Click(Key),
    Text(Seq<char>),
    Paste(Seq<char>),
}

impl View for KeyEvent {
    type V = KeyEventView;

    open spec fn view(&self) -> KeyEventView {
        match self {
            KeyEvent::Down(k) => KeyEventView::Down(*k),
            KeyEvent::Up(k) => KeyEventView::Up(*k),
            KeyEvent::Click(k) => KeyEventView::Click(*k),
            KeyEvent::Text(s) => KeyEventView::Text(s@),
            KeyEvent::Paste(s) => KeyEventView::Paste(s@),
        }
    }
}

impl DeepView for KeyEvent {
    type V = KeyEventView;

    open spec fn deep_view(&self) -> KeyEventView {
        self.view()
    }
}

/// The shift-quote-shift wrap: the quote must reach the target application
/// as a real shifted keypress, not as a pasted character.
pub open spec fn quote_events() -> Seq<KeyEventView> {
    seq![
        KeyEventView::Down(Key::Shift),
        KeyEventView::Click(Key::Layout('\'')),
        KeyEventView::Up(Key::Shift),
    ]
}

/// Appends the shift-quote-shift wrap to an injection sequence.
pub fn quote(events: &mut Vec<KeyEvent>)
    ensures
        final(events)@ == old(events)@ + seq![
            KeyEvent::Down(Key::Shift),
            KeyEvent::Click(Key::Layout('\'')),
            KeyEvent::Up(Key::Shift),
        ],
        final(events).deep_view() == old(events).deep_view() + quote_events(),
{
    events.push(KeyEvent::Down(Key::Shift));
    events.push(KeyEvent::Click(Key::Layout('\'')));
    events.push(KeyEvent::Up(Key::Shift));
    assert(final(events).deep_view() =~= old(events).deep_view() + quote_events());
}

/// The prefix of every command: leave any mode with Escape, then open the
/// command palette with a shifted semicolon.
pub open spec fn command_prefix() -> Seq<KeyEventView> {
    seq![
        KeyEventView::Click(Key::Escape),
        KeyEventView::Down(Key::Shift),
        KeyEventView::Click(Key::Layout(';')),
        KeyEventView::Up(Key::Shift),
    ]
}

/// The injection sequence of the change-directory command: the command
/// prefix, then `cd "<directory>"` — pasted whole with the quotes in the
/// payload, or typed with the quotes as shifted keypresses — then Return.
pub open spec fn change_directory_events(directory: Seq<char>, clipboard: bool) -> Seq<
    KeyEventView,
> {
    let body = if clipboard {
        seq![KeyEventView::Paste("cd \""@ + directory + "\""@)]
    } else {
        seq![KeyEventView::Text("cd "@)] + quote_events() + seq![KeyEventView::Text(directory)]
            + quote_events()
    };
    command_prefix() + body + seq![KeyEventView::Click(Key::Return)]
}

/// Builds the change-directory command: the events that, synthesized in
/// order into the focused window, enter `cd "<directory>"` on its command
/// line and submit it.
pub fn helix_change_directory(directory: &str, clipboard: bool) -> (events: Vec<KeyEvent>)
    ensures
        events.deep_view() == change_directory_events(directory@, clipboard),
{
    let mut events: Vec<KeyEvent> = Vec::new();
    events.push(KeyEvent::Click(Key::Escape));
    events.push(KeyEvent::Down(Key::Shift));
    events.push(KeyEvent::Click(Key::Layout(';')));
    events.push(KeyEvent::Up(Key::Shift));
    assert(events.deep_view() =~~= command_prefix());
    if clipboard {
        let mut payload = String::new();
        payload.append("cd \"");
        payload.append(directory);
        payload.append("\"");
        events.push(KeyEvent::Paste(payload));
        assert(events.deep_view() =~~= command_prefix() + seq![
            KeyEventView::Paste("cd \""@ + directory@ + "\""@),
        ]);
    } else {
        events.push(KeyEvent::Text(String::from_str("cd ")));
        quote(&mut events);
        events.push(KeyEvent::Text(String::from_str(directory)));
        quote(&mut events);
        assert(events.deep_view() =~~= command_prefix() + (seq![KeyEventView::Text("cd "@)]
            + quote_events() + seq![KeyEventView::Text(directory@)] + quote_events()));
    }
    events.push(KeyEvent::Click(Key::Return));
    assert(events.deep_view() =~~= change_directory_events(directory@, clipboard));
    events
}

/// The injection sequence of the open-file command: the command prefix, then
/// `o <file>` — pasted unquoted, or typed with the file path wrapped in
/// shifted quotes (the two strategies differ here by design) — then Return,
/// then the one-based jump to the line (`<line>gg`) and, only for a column
/// greater than one, the jump to the column (`<column>l`).
pub open spec fn open_file_events(
    file: Seq<char>,
    line: u32,
    column: u32,
    clipboard: bool,
) -> Seq<KeyEventView> {
    let body = if clipboard {
        seq![KeyEventView::Paste("o "@ + file)]
    } else {
        seq![KeyEventView::Text("o "@)] + quote_events() + seq![KeyEventView::Text(file)]
            + quote_events()
    };
    let jump = seq![KeyEventView::Text(dec_str(line as nat) + "gg"@)];
    let column_jump = if column > 1 {
        seq![KeyEventView::Text(dec_str(column as nat) + "l"@)]
    } else {
        Seq::<KeyEventView>::empty()
    };
    command_prefix() + body + seq![KeyEventView::Click(Key::Return)] + jump + column_jump
}

/// Builds the open-file command: the events that enter `o <file>` on the
/// command line of the focused window, submit it, and jump to the one-based
/// line and column.
pub fn helix_open_file(file: &str, line: u32, column: u32, clipboard: bool) -> (events: Vec<
    KeyEvent,
>)
    ensures
        events.deep_view() == open_file_events(file@, line, column, clipboard),
{
    let mut events: Vec<KeyEvent> = Vec::new();
    events.push(KeyEvent::Click(Key::Escape));
    events.push(KeyEvent::Down(Key::Shift));
    events.push(KeyEvent::Click(Key::Layout(';')));
    events.push(KeyEvent::Up(Key::Shift));
    assert(events.deep_view() =~~= command_prefix());
    if clipboard {
        let mut payload = String::new();
        payload.append("o ");
        payload.append(file);
        events.push(KeyEvent::Paste(payload));
        assert(events.deep_view() =~~= command_prefix() + seq![
            KeyEventView::Paste("o "@ + file@),
        ]);
    } else {
        events.push(KeyEvent::Text(String::from_str("o ")));
        quote(&mut events);
        events.push(KeyEvent::Text(String::from_str(file)));
        quote(&mut events);
        assert(events.deep_view() =~~= command_prefix() + (seq![KeyEventView::Text("o "@)]
            + quote_events() + seq![KeyEventView::Text(file@)] + quote_events()));
    }
    events.push(KeyEvent::Click(Key::Return));
    let mut line_jump = u32_to_string(line);
    line_jump.append("gg");
    events.push(KeyEvent::Text(line_jump));
    assert(events@[events@.len() - 1].deep_view() == KeyEventView::Text(
        dec_str(line as nat) + "gg"@,
    ));
    if column > 1 {
        let mut column_jump = u32_to_string(column);
        column_jump.append("l");
        events.push(KeyEvent::Text(column_jump));
    }
    assert(events.deep_view() =~~= open_file_events(file@, line, column, clipboard));
    events
}

/// Converts a zero-based external line or column input to the one-based
/// value the command macros take; an absent input means the first position.
pub fn one_based(value: Option<u32>) -> (r: u32)
    requires
        value matches Some(v) ==> v < u32::MAX,
    ensures
        r == match value {
            None => 1u32,
            Some(v) => (v + 1) as u32,
        },
{
    match value {
        None => 1,
        Some(v) => v + 1,
    }
}

/// The paste keystroke: Control held, `v` clicked, Control released.
pub open spec fn paste_key_events() -> Seq<KeyEventView> {
    seq![
        KeyEventView::Down(Key::Control),
        KeyEventView::Down(Key::Layout('v')),
        KeyEventView::Up(Key::Layout('v')),
        KeyEventView::Up(Key::Control),
    ]
}

/// The key events of the paste keystroke, sent between the payload write
/// and the snapshot restore of the clipboard-swap cycle.
pub fn paste_keys() -> (events: Vec<KeyEvent>)
    ensures
        events.deep_view() == paste_key_events(),
{
    let mut events: Vec<KeyEvent> = Vec::new();
    events.push(KeyEvent::Down(Key::Control));
    events.push(KeyEvent::Down(Key::Layout('v')));
    events.push(KeyEvent::Up(Key::Layout('v')));
    events.push(KeyEvent::Up(Key::Control));
    assert(events.deep_view() =~= paste_key_events());
    events
}

/// One step of the clipboard-swap delivery of a payload. The clipboard is a
/// single global resource that another process can hold locked, so both
/// bracketing opens carry a bounded retry count.
#[derive(Debug, PartialEq, Eq)]
pub enum ClipAction {
    /// Open the clipboard, retrying up to this many attempts; failing to
    /// acquire it is fatal to the whole injection.
    OpenWithRetry(u32),
    /// Capture the first available format's raw bytes as the snapshot to
    /// restore; no format available means an empty snapshot, not an error.
    SaveSnapshot,
    /// Write the payload as the definite text format.
    SetText(String),
    /// Close the clipboard, releasing the global resource.
    CloseClipboard,
    /// Wait this many milliseconds for the target window's paste handling
    /// to settle.
    SleepMs(u32),
    /// Synthesize the paste keystroke into the focused window.
    SendPasteKeys,
    /// Only when the snapshot captured a content: reopen the clipboard with
    /// this retry bound, write the snapshot back, and close it again.
    RestoreIfSaved(u32),
}

/// A clipboard action with its payload as a character sequence.
#[verifier::ext_equal]
pub enum ClipActionView {
    OpenWithRetry(u32),
    SaveSnapshot,
    SetText(Seq<char>),
    CloseClipboard,
    SleepMs(u32),
    SendPasteKeys,
    RestoreIfSaved(u32),
}

impl View for ClipAction {
    type V = ClipActionView;

    open spec fn view(&self) -> ClipActionView {
        match self {
            ClipAction::OpenWithRetry(n) => ClipActionView::OpenWithRetry(*n),
            ClipAction::SaveSnapshot => ClipActionView::SaveSnapshot,
            ClipAction::SetText(s) => ClipActionView::SetText(s@),
            ClipAction::CloseClipboard => ClipActionView::CloseClipboard,
            ClipAction::SleepMs(n) => ClipActionView::SleepMs(*n),
            ClipAction::SendPasteKeys => ClipActionView::SendPasteKeys,
            ClipAction::RestoreIfSaved(n) => ClipActionView::RestoreIfSaved(*n),
        }
    }
}

impl DeepView for ClipAction {
    type V = ClipActionView;

    open spec fn deep_view(&self) -> ClipActionView {
        self.view()
    }
}

/// The clipboard-swap cycle for one payload: acquire the clipboard with at
/// most ten attempts, snapshot what it holds, write the payload, release it;
/// wait fifty milliseconds, send the paste keystroke, wait another fifty;
/// then, exactly when a snapshot was captured, reacquire the clipboard under
/// the same retry bound and write the snapshot back, so the clipboard never
/// keeps the injected payload.
pub open spec fn paste_restore_plan(msg: Seq<char>) -> Seq<ClipActionView> {
    seq![
        ClipActionView::OpenWithRetry(10),
        ClipActionView::SaveSnapshot,
        ClipActionView::SetText(msg),
        ClipActionView::CloseClipboard,
        ClipActionView::SleepMs(50),
        ClipActionView::SendPasteKeys,
        ClipActionView::SleepMs(50),
        ClipActionView::RestoreIfSaved(10),
    ]
}

/// The actions that deliver a payload through the clipboard swap, in the
/// fixed order of the cycle.
pub fn paste_restore(msg: &str) -> (actions: Vec<ClipAction>)
    ensures
        actions.deep_view() == paste_restore_plan(msg@),
{
    let mut actions: Vec<ClipAction> = Vec::new();
    actions.push(ClipAction::OpenWithRetry(10));
    actions.push(ClipAction::SaveSnapshot);
    actions.push(ClipAction::SetText(String::from_str(msg)));
    actions.push(ClipAction::CloseClipboard);
    actions.push(ClipAction::SleepMs(50));
    actions.push(ClipAction::SendPasteKeys);
    actions.push(ClipAction::SleepMs(50));
    actions.push(ClipAction::RestoreIfSaved(10));
    assert(actions.deep_view() =~= paste_restore_plan(msg@));
    actions
}

} // verus!
