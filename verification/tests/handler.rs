use menace::app::App;
use menace::events::{InputEvent, KeyCode, KeyEvent, MouseEventKind};
use menace::handlers::{handle_event, handle_key, AppEvent};
use menace::state::InputMode;
use menace::types::MessageRole;

fn key(code: KeyCode) -> InputEvent {
    InputEvent::Key(KeyEvent { code, control: false, alt: false })
}

fn ctrl(code: KeyCode) -> InputEvent {
    InputEvent::Key(KeyEvent { code, control: true, alt: false })
}

fn alt(code: KeyCode) -> InputEvent {
    InputEvent::Key(KeyEvent { code, control: false, alt: true })
}

fn type_text(app: &mut App, text: &str) {
    for c in text.chars() {
        assert_eq!(handle_event(app, key(KeyCode::Char(c)), 0), AppEvent::InputChanged);
    }
}

fn app_with_messages(count: usize) -> App {
    let mut app = App::default();
    for _ in 0..count {
        type_text(&mut app, "x");
        assert_eq!(handle_event(&mut app, key(KeyCode::Enter), 0), AppEvent::MessageSent);
    }
    app
}

#[test]
fn starts_empty_in_editing_mode() {
    let app = App::default();
    assert_eq!(app.input, "");
    assert!(app.messages.is_empty());
    assert_eq!(app.input_mode, InputMode::Editing);
    assert_eq!(app.last_ctrl_c, None);
    assert_eq!(app.scroll_offset, 0);
    assert_eq!(InputMode::default(), InputMode::Editing);
}

#[test]
fn typing_hi_and_enter_sends_two_messages() {
    let mut app = App::default();
    type_text(&mut app, "hi");
    assert_eq!(app.input, "hi");
    let signal = handle_event(&mut app, key(KeyCode::Enter), 0);
    assert_eq!(signal, AppEvent::MessageSent);
    assert_eq!(app.input, "");
    assert_eq!(app.messages.len(), 2);
    assert_eq!(app.messages[0].role, MessageRole::User);
    assert_eq!(app.messages[0].content, "hi");
    assert_eq!(app.messages[1].role, MessageRole::Assistant);
    assert_eq!(app.messages[1].content, "I received: 'hi'");
}

#[test]
fn every_typed_text_is_sent_with_its_reply() {
    for text in ["a", "hello world", "  padded  ", "quote ' inside", "caf\u{e9} \u{1F600}"] {
        let mut app = App::default();
        type_text(&mut app, text);
        assert_eq!(handle_event(&mut app, key(KeyCode::Enter), 7), AppEvent::MessageSent);
        assert_eq!(app.input, "");
        assert_eq!(app.messages.len(), 2);
        assert_eq!(app.messages[0].role, MessageRole::User);
        assert_eq!(app.messages[0].content, text);
        assert_eq!(app.messages[1].role, MessageRole::Assistant);
        assert_eq!(app.messages[1].content, format!("I received: '{}'", text));
        assert_eq!(app.input_mode, InputMode::Editing);
    }
}

#[test]
fn enter_on_empty_buffer_sends_nothing() {
    let mut app = App::default();
    assert_eq!(handle_event(&mut app, key(KeyCode::Enter), 0), AppEvent::Continue);
    assert!(app.messages.is_empty());
    assert_eq!(app.input, "");
}

#[test]
fn enter_on_white_space_empties_buffer_and_sends_nothing() {
    let mut app = App::default();
    type_text(&mut app, " \t ");
    assert_eq!(handle_event(&mut app, alt(KeyCode::Enter), 0), AppEvent::InputChanged);
    assert_eq!(app.input, " \t \n");
    assert_eq!(handle_event(&mut app, key(KeyCode::Enter), 0), AppEvent::InputChanged);
    assert!(app.messages.is_empty());
    assert_eq!(app.input, "");
}

#[test]
fn sending_returns_to_the_latest_message() {
    let mut app = app_with_messages(3);
    assert_eq!(handle_event(&mut app, key(KeyCode::PageUp), 0), AppEvent::InputChanged);
    assert_eq!(app.scroll_offset, 5);
    type_text(&mut app, "more");
    assert_eq!(handle_event(&mut app, key(KeyCode::Enter), 0), AppEvent::MessageSent);
    assert_eq!(app.scroll_offset, 0);
    assert_eq!(app.messages.len(), 8);
}

#[test]
fn white_space_submission_keeps_the_scroll_offset() {
    let mut app = app_with_messages(3);
    handle_event(&mut app, key(KeyCode::PageUp), 0);
    type_text(&mut app, " ");
    assert_eq!(handle_event(&mut app, key(KeyCode::Enter), 0), AppEvent::InputChanged);
    assert_eq!(app.scroll_offset, 5);
    assert_eq!(app.messages.len(), 6);
}

const MS: u64 = 1_000_000;

#[test]
fn second_ctrl_c_within_the_window_quits() {
    let mut app = App::default();
    assert_eq!(handle_event(&mut app, ctrl(KeyCode::Char('c')), 1_000 * MS), AppEvent::Continue);
    assert_eq!(app.last_ctrl_c, Some(1_000 * MS));
    assert_eq!(handle_event(&mut app, ctrl(KeyCode::Char('c')), 1_499 * MS), AppEvent::Quit);
    assert_eq!(app.last_ctrl_c, Some(1_000 * MS));
}

#[test]
fn second_ctrl_c_just_inside_the_window_quits() {
    let mut app = App::default();
    assert_eq!(handle_event(&mut app, ctrl(KeyCode::Char('c')), 900_000), AppEvent::Continue);
    assert_eq!(handle_event(&mut app, ctrl(KeyCode::Char('c')), 900_000 + 499_200_000), AppEvent::Quit);
    let mut app = App::default();
    assert_eq!(handle_event(&mut app, ctrl(KeyCode::Char('c')), 7), AppEvent::Continue);
    assert_eq!(handle_event(&mut app, ctrl(KeyCode::Char('c')), 7 + 499_999_999), AppEvent::Quit);
}

#[test]
fn second_ctrl_c_after_the_window_restarts_the_timer() {
    let mut app = App::default();
    assert_eq!(handle_event(&mut app, ctrl(KeyCode::Char('c')), 1_000 * MS), AppEvent::Continue);
    assert_eq!(handle_event(&mut app, ctrl(KeyCode::Char('c')), 1_500 * MS), AppEvent::Continue);
    assert_eq!(app.last_ctrl_c, Some(1_500 * MS));
    assert_eq!(handle_event(&mut app, ctrl(KeyCode::Char('c')), 3_000 * MS), AppEvent::Continue);
    assert_eq!(app.last_ctrl_c, Some(3_000 * MS));
    assert_eq!(handle_event(&mut app, ctrl(KeyCode::Char('c')), 3_000 * MS), AppEvent::Quit);
}

#[test]
fn ctrl_c_with_a_clock_that_went_back_counts_as_no_time() {
    let mut app = App::default();
    assert_eq!(handle_event(&mut app, ctrl(KeyCode::Char('c')), 5_000 * MS), AppEvent::Continue);
    assert_eq!(handle_event(&mut app, ctrl(KeyCode::Char('c')), 10), AppEvent::Quit);
}

#[test]
fn ctrl_c_types_nothing_in_any_mode() {
    for mode in [InputMode::Normal, InputMode::Editing, InputMode::Command] {
        let mut app = App::default();
        app.input_mode = mode;
        assert_eq!(handle_event(&mut app, ctrl(KeyCode::Char('c')), 42), AppEvent::Continue);
        assert_eq!(app.input, "");
        assert_eq!(app.input_mode, mode);
        assert_eq!(app.last_ctrl_c, Some(42));
        assert_eq!(handle_event(&mut app, ctrl(KeyCode::Char('c')), 43), AppEvent::Quit);
    }
}

#[test]
fn plain_c_is_text() {
    let mut app = App::default();
    assert_eq!(handle_event(&mut app, key(KeyCode::Char('c')), 0), AppEvent::InputChanged);
    assert_eq!(handle_event(&mut app, ctrl(KeyCode::Char('a')), 0), AppEvent::InputChanged);
    assert_eq!(app.input, "ca");
    assert_eq!(app.last_ctrl_c, None);
}

#[test]
fn alt_enter_adds_a_line_break_and_sends_nothing() {
    let mut app = App::default();
    type_text(&mut app, "one");
    assert_eq!(handle_event(&mut app, alt(KeyCode::Enter), 0), AppEvent::InputChanged);
    type_text(&mut app, "two");
    assert_eq!(app.input, "one\ntwo");
    assert!(app.messages.is_empty());
    assert_eq!(handle_event(&mut app, key(KeyCode::Enter), 0), AppEvent::MessageSent);
    assert_eq!(app.messages[0].content, "one\ntwo");
    assert_eq!(app.messages[1].content, "I received: 'one\ntwo'");
}

#[test]
fn alt_enter_in_command_mode_adds_a_line_break() {
    let mut app = App::default();
    app.input_mode = InputMode::Command;
    app.input = String::from("/x");
    assert_eq!(handle_event(&mut app, alt(KeyCode::Enter), 0), AppEvent::InputChanged);
    assert_eq!(app.input, "/x\n");
    assert_eq!(app.input_mode, InputMode::Command);
}

#[test]
fn backspace_removes_the_last_character() {
    let mut app = App::default();
    type_text(&mut app, "ab\u{e9}");
    assert_eq!(handle_event(&mut app, key(KeyCode::Backspace), 0), AppEvent::InputChanged);
    assert_eq!(app.input, "ab");
    assert_eq!(handle_event(&mut app, key(KeyCode::Backspace), 0), AppEvent::InputChanged);
    assert_eq!(handle_event(&mut app, key(KeyCode::Backspace), 0), AppEvent::InputChanged);
    assert_eq!(app.input, "");
    assert_eq!(handle_event(&mut app, key(KeyCode::Backspace), 0), AppEvent::Continue);
    assert_eq!(app.input, "");
}

#[test]
fn normal_mode_slash_opens_a_command_line() {
    let mut app = App::default();
    app.input_mode = InputMode::Normal;
    app.input = String::from("left over");
    assert_eq!(handle_event(&mut app, key(KeyCode::Char('/')), 0), AppEvent::InputChanged);
    assert_eq!(app.input_mode, InputMode::Command);
    assert_eq!(app.input, "/");
}

#[test]
fn normal_mode_e_starts_editing() {
    let mut app = App::default();
    app.input_mode = InputMode::Normal;
    app.input = String::from("kept");
    assert_eq!(handle_event(&mut app, key(KeyCode::Char('e')), 0), AppEvent::InputChanged);
    assert_eq!(app.input_mode, InputMode::Editing);
    assert_eq!(app.input, "kept");
}

#[test]
fn normal_mode_q_quits() {
    let mut app = App::default();
    app.input_mode = InputMode::Normal;
    assert_eq!(handle_event(&mut app, key(KeyCode::Char('q')), 0), AppEvent::Quit);
    assert_eq!(app.input_mode, InputMode::Normal);
    assert_eq!(app.input, "");
}

#[test]
fn normal_mode_ignores_other_keys() {
    let codes = [
        KeyCode::Char('x'),
        KeyCode::Char('c'),
        KeyCode::Enter,
        KeyCode::Backspace,
        KeyCode::Esc,
        KeyCode::Up,
        KeyCode::Down,
        KeyCode::PageUp,
        KeyCode::PageDown,
        KeyCode::Home,
        KeyCode::End,
        KeyCode::Other,
    ];
    for code in codes {
        let mut app = app_with_messages(2);
        app.input_mode = InputMode::Normal;
        app.input = String::from("text");
        assert_eq!(handle_event(&mut app, key(code), 0), AppEvent::Continue);
        assert_eq!(handle_event(&mut app, alt(code), 0), AppEvent::Continue);
        assert_eq!(app.input, "text");
        assert_eq!(app.input_mode, InputMode::Normal);
        assert_eq!(app.scroll_offset, 0);
        assert_eq!(app.messages.len(), 4);
    }
}

#[test]
fn escape_returns_to_normal_from_every_mode() {
    for mode in [InputMode::Normal, InputMode::Editing, InputMode::Command] {
        let mut app = App::default();
        app.input_mode = mode;
        app.input = String::from("/draft");
        let signal = handle_event(&mut app, key(KeyCode::Esc), 0);
        assert_eq!(app.input_mode, InputMode::Normal);
        if mode == InputMode::Command {
            assert_eq!(app.input, "");
        } else {
            assert_eq!(app.input, "/draft");
        }
        if mode == InputMode::Normal {
            assert_eq!(signal, AppEvent::Continue);
        } else {
            assert_eq!(signal, AppEvent::InputChanged);
        }
    }
}

#[test]
fn command_mode_edits_and_discards() {
    let mut app = App::default();
    assert_eq!(handle_event(&mut app, key(KeyCode::Esc), 0), AppEvent::InputChanged);
    assert_eq!(handle_event(&mut app, key(KeyCode::Char('/')), 0), AppEvent::InputChanged);
    assert_eq!(handle_event(&mut app, key(KeyCode::Char('h')), 0), AppEvent::InputChanged);
    assert_eq!(handle_event(&mut app, key(KeyCode::Char('i')), 0), AppEvent::InputChanged);
    assert_eq!(handle_event(&mut app, key(KeyCode::Backspace), 0), AppEvent::InputChanged);
    assert_eq!(app.input, "/h");
    assert_eq!(handle_event(&mut app, key(KeyCode::PageUp), 0), AppEvent::Continue);
    assert_eq!(handle_event(&mut app, key(KeyCode::Enter), 0), AppEvent::InputChanged);
    assert_eq!(app.input, "");
    assert_eq!(app.input_mode, InputMode::Normal);
    assert!(app.messages.is_empty());
}

#[test]
fn scroll_keys_stay_within_the_conversation() {
    let mut app = app_with_messages(4);
    assert_eq!(app.messages.len(), 8);
    assert_eq!(handle_event(&mut app, ctrl(KeyCode::Up), 0), AppEvent::InputChanged);
    assert_eq!(app.scroll_offset, 3);
    assert_eq!(handle_event(&mut app, key(KeyCode::Up), 0), AppEvent::Continue);
    assert_eq!(app.scroll_offset, 3);
    assert_eq!(handle_event(&mut app, key(KeyCode::PageUp), 0), AppEvent::InputChanged);
    assert_eq!(app.scroll_offset, 7);
    assert_eq!(handle_event(&mut app, key(KeyCode::PageUp), 0), AppEvent::Continue);
    assert_eq!(app.scroll_offset, 7);
    assert_eq!(handle_event(&mut app, ctrl(KeyCode::Down), 0), AppEvent::InputChanged);
    assert_eq!(app.scroll_offset, 4);
    assert_eq!(handle_event(&mut app, key(KeyCode::Down), 0), AppEvent::Continue);
    assert_eq!(handle_event(&mut app, key(KeyCode::PageDown), 0), AppEvent::InputChanged);
    assert_eq!(app.scroll_offset, 0);
    assert_eq!(handle_event(&mut app, key(KeyCode::PageDown), 0), AppEvent::Continue);
    assert_eq!(app.scroll_offset, 0);
    assert_eq!(handle_event(&mut app, ctrl(KeyCode::Home), 0), AppEvent::InputChanged);
    assert_eq!(app.scroll_offset, 7);
    assert_eq!(handle_event(&mut app, key(KeyCode::End), 0), AppEvent::Continue);
    assert_eq!(app.scroll_offset, 7);
    assert_eq!(handle_event(&mut app, ctrl(KeyCode::End), 0), AppEvent::InputChanged);
    assert_eq!(app.scroll_offset, 0);
    assert_eq!(handle_event(&mut app, key(KeyCode::Home), 0), AppEvent::Continue);
    assert_eq!(app.scroll_offset, 0);
}

#[test]
fn mouse_wheel_scrolls_in_every_mode() {
    for mode in [InputMode::Normal, InputMode::Editing, InputMode::Command] {
        let mut app = app_with_messages(3);
        app.input_mode = mode;
        let up = InputEvent::Mouse(MouseEventKind::ScrollUp);
        let down = InputEvent::Mouse(MouseEventKind::ScrollDown);
        assert_eq!(handle_event(&mut app, up, 0), AppEvent::InputChanged);
        assert_eq!(app.scroll_offset, 3);
        assert_eq!(handle_event(&mut app, up, 0), AppEvent::InputChanged);
        assert_eq!(app.scroll_offset, 5);
        assert_eq!(handle_event(&mut app, up, 0), AppEvent::Continue);
        assert_eq!(handle_event(&mut app, down, 0), AppEvent::InputChanged);
        assert_eq!(app.scroll_offset, 2);
        assert_eq!(handle_event(&mut app, down, 0), AppEvent::InputChanged);
        assert_eq!(app.scroll_offset, 0);
        assert_eq!(handle_event(&mut app, down, 0), AppEvent::Continue);
        assert_eq!(handle_event(&mut app, InputEvent::Mouse(MouseEventKind::Other), 0), AppEvent::Continue);
    }
}

#[test]
fn scrolling_an_empty_conversation_stays_at_zero() {
    let mut app = App::default();
    assert_eq!(handle_event(&mut app, key(KeyCode::PageUp), 0), AppEvent::Continue);
    assert_eq!(app.scroll_offset, 0);
    assert_eq!(handle_event(&mut app, ctrl(KeyCode::Home), 0), AppEvent::Continue);
    assert_eq!(app.scroll_offset, 0);
    app.scroll_up(usize::MAX);
    assert_eq!(app.scroll_offset, 0);
    app.scroll_down(usize::MAX);
    assert_eq!(app.scroll_offset, 0);
}

#[test]
fn scroll_methods_saturate() {
    let mut app = app_with_messages(5);
    app.scroll_up(4);
    assert_eq!(app.scroll_offset, 4);
    app.scroll_up(usize::MAX);
    assert_eq!(app.scroll_offset, 9);
    app.scroll_down(2);
    assert_eq!(app.scroll_offset, 7);
    app.scroll_down(usize::MAX);
    assert_eq!(app.scroll_offset, 0);
    app.scroll_to_top();
    assert_eq!(app.scroll_offset, 9);
    app.scroll_to_bottom();
    assert_eq!(app.scroll_offset, 0);
}

#[test]
fn other_events_change_nothing() {
    let mut app = App::default();
    type_text(&mut app, "abc");
    assert_eq!(handle_event(&mut app, InputEvent::Other, 9), AppEvent::Continue);
    assert_eq!(handle_event(&mut app, key(KeyCode::Other), 9), AppEvent::Continue);
    assert_eq!(app.input, "abc");
    assert_eq!(app.last_ctrl_c, None);
}

#[test]
fn handle_key_agrees_with_handle_event() {
    let mut app = App::default();
    let press = KeyEvent { code: KeyCode::Char('z'), control: false, alt: true };
    assert_eq!(handle_key(&mut app, press, 0), AppEvent::InputChanged);
    assert_eq!(app.input, "z");
}

#[test]
fn stored_messages_keep_their_timestamps() {
    let mut app = app_with_messages(2);
    let stamps: Vec<std::time::SystemTime> = app.messages.iter().map(|m| m.timestamp).collect();
    type_text(&mut app, "more");
    handle_event(&mut app, key(KeyCode::Enter), 0);
    handle_event(&mut app, key(KeyCode::PageUp), 0);
    handle_event(&mut app, ctrl(KeyCode::End), 0);
    app.scroll_up(2);
    app.scroll_down(1);
    app.scroll_to_top();
    app.scroll_to_bottom();
    assert_eq!(app.messages.len(), 6);
    for (i, stamp) in stamps.iter().enumerate() {
        assert_eq!(app.messages[i].timestamp, *stamp);
    }
}

#[test]
fn send_message_drains_the_buffer() {
    let mut app = App::default();
    app.input = String::from("direct");
    app.scroll_offset = 0;
    app.send_message();
    assert_eq!(app.input, "");
    assert_eq!(app.messages.len(), 2);
    assert_eq!(app.messages[0].content, "direct");
    assert_eq!(app.messages[1].content, "I received: 'direct'");
    app.send_message();
    assert_eq!(app.messages.len(), 2);
}
