//! The event handler: what one terminal event does to the application state,
//! and what the caller has to redraw afterwards.

use vstd::prelude::*;
use crate::app::{history_kept, App, AppView};
use crate::events::{InputEvent, KeyCode, KeyEvent, MouseEventKind};
use crate::state::InputMode;

verus! {

/// What the caller of the event handler has to do next.
#[derive(Debug, Clone, Copy, PartialEq, Eq, Structural)]
pub enum AppEvent {
    /// Nothing that is shown has changed: no redraw is needed.
    Continue,
    /// The application is to end.
    Quit,
    /// The input buffer, the mode or the scroll offset has changed: the live
    /// viewport is to be redrawn.
    InputChanged,
    /// Messages were added to the conversation: they are to be shown, and the
    /// live viewport redrawn.
    MessageSent,
}

/// A second Ctrl+C quits only if it comes less than this many nanoseconds,
/// half a second,
/// after the first.
pub const QUIT_WINDOW_NS: u64 = 500_000_000;

/// The wheel and the Ctrl+arrow keys scroll by this many messages.
pub const SCROLL_STEP: usize = 3;

/// PageUp and PageDown scroll by this many messages.
pub const SCROLL_PAGE: usize = 10;

/// The time from `earlier` to `now`, and zero if `now` is not later.
pub open spec fn elapsed_ns(earlier: u64, now: u64) -> nat {
    if now >= earlier {
        (now - earlier) as nat
    } else {
        0
    }
}

/// A Ctrl+C at `now` quits: an earlier one is on record and less than
/// [`QUIT_WINDOW_NS`] old.
pub open spec fn quit_confirmed(last_ctrl_c: Option<u64>, now: u64) -> bool {
    match last_ctrl_c {
        Some(earlier) => elapsed_ns(earlier, now) < QUIT_WINDOW_NS,
        None => false,
    }
}

/// The state after Ctrl+C at `now`: unchanged if the press quits, and else
/// with the press on record.
pub open spec fn after_quit_chord(s: AppView, now: u64) -> AppView {
    if quit_confirmed(s.last_ctrl_c, now) {
        s
    } else {
        AppView { last_ctrl_c: Some(now), ..s }
    }
}

/// The state after a key that edits text, in the two modes that have a text
/// to edit: a character is appended, Backspace removes the last one.
pub open spec fn after_text_key(s: AppView, key: KeyEvent) -> AppView {
    match key.code {
        KeyCode::Char(c) => AppView { input: s.input.push(c), ..s },
        KeyCode::Backspace => if s.input.len() > 0 {
            AppView { input: s.input.drop_last(), ..s }
        } else {
            s
        },
        _ => s,
    }
}

/// The state after a key in Normal mode: `e` starts editing, `/` opens a
/// command line that holds the slash; every other key is ignored.
pub open spec fn after_normal_key(s: AppView, key: KeyEvent) -> AppView {
    match key.code {
        KeyCode::Char(c) => if c == 'e' {
            AppView { input_mode: InputMode::Editing, ..s }
        } else if c == '/' {
            AppView { input: seq!['/'], input_mode: InputMode::Command, ..s }
        } else {
            s
        },
        _ => s,
    }
}

/// The state after a key in Editing mode: Enter sends the buffer, or adds a
/// line break to it while Alt is held; Esc leaves for Normal mode; the
/// scroll keys move the chat window; the text keys edit the buffer.
pub open spec fn after_editing_key(s: AppView, key: KeyEvent) -> AppView {
    match key.code {
        KeyCode::Enter => if key.alt {
            AppView { input: s.input.push('\n'), ..s }
        } else {
            s.submitted()
        },
        KeyCode::Esc => AppView { input_mode: InputMode::Normal, ..s },
        KeyCode::Up => if key.control {
            s.scrolled_up(SCROLL_STEP as nat)
        } else {
            s
        },
        KeyCode::Down => if key.control {
            s.scrolled_down(SCROLL_STEP as nat)
        } else {
            s
        },
        KeyCode::PageUp => s.scrolled_up(SCROLL_PAGE as nat),
        KeyCode::PageDown => s.scrolled_down(SCROLL_PAGE as nat),
        KeyCode::Home => if key.control {
            s.with_scroll(s.max_scroll())
        } else {
            s
        },
        KeyCode::End => if key.control {
            s.with_scroll(0)
        } else {
            s
        },
        _ => after_text_key(s, key),
    }
}

/// The state after a key in Command mode: Enter and Esc both drop the
/// command and return to Normal mode, but Enter with Alt adds a line break;
/// the text keys edit the command.
pub open spec fn after_command_key(s: AppView, key: KeyEvent) -> AppView {
    match key.code {
        KeyCode::Enter => if key.alt {
            AppView { input: s.input.push('\n'), ..s }
        } else {
            AppView { input: Seq::empty(), input_mode: InputMode::Normal, ..s }
        },
        KeyCode::Esc => AppView { input: Seq::empty(), input_mode: InputMode::Normal, ..s },
        _ => after_text_key(s, key),
    }
}

/// The state after a key press at `now`. Ctrl+C is read first, in every
/// mode; any other key is read by the active mode.
pub open spec fn after_key(s: AppView, key: KeyEvent, now: u64) -> AppView {
    if key.is_quit_chord() {
        after_quit_chord(s, now)
    } else {
        match s.input_mode {
            InputMode::Normal => after_normal_key(s, key),
            InputMode::Editing => after_editing_key(s, key),
            InputMode::Command => after_command_key(s, key),
        }
    }
}

/// The state after one event at `now`. The wheel scrolls in every mode.
pub open spec fn next_state(s: AppView, event: InputEvent, now: u64) -> AppView {
    match event {
        InputEvent::Key(key) => after_key(s, key, now),
        InputEvent::Mouse(MouseEventKind::ScrollUp) => s.scrolled_up(SCROLL_STEP as nat),
        InputEvent::Mouse(MouseEventKind::ScrollDown) => s.scrolled_down(SCROLL_STEP as nat),
        _ => s,
    }
}

/// The event asks the application to end: a confirmed Ctrl+C in any mode, or
/// `q` in Normal mode.
pub open spec fn quits(s: AppView, event: InputEvent, now: u64) -> bool {
    match event {
        InputEvent::Key(key) => if key.is_quit_chord() {
            quit_confirmed(s.last_ctrl_c, now)
        } else {
            s.input_mode == InputMode::Normal && key.code == KeyCode::Char('q')
        },
        _ => false,
    }
}

/// What has to be redrawn when the state went from `before` to `after`.
pub open spec fn redraw_signal(before: AppView, after: AppView) -> AppEvent {
    if after.messages != before.messages {
        AppEvent::MessageSent
    } else if after.input != before.input || after.input_mode != before.input_mode
        || after.scroll_offset != before.scroll_offset {
        AppEvent::InputChanged
    } else {
        AppEvent::Continue
    }
}

/// What the handler returns for one event at `now`.
pub open spec fn outcome(s: AppView, event: InputEvent, now: u64) -> AppEvent {
    if quits(s, event, now) {
        AppEvent::Quit
    } else {
        redraw_signal(s, next_state(s, event, now))
    }
}

/// Whether the press at `now` comes within the quit window of the one on
/// record.
fn confirms_quit(last_ctrl_c: Option<u64>, now_ns: u64) -> (confirmed: bool)
    ensures
        confirmed == quit_confirmed(last_ctrl_c, now_ns),
{
    match last_ctrl_c {
        Some(earlier) => now_ns.saturating_sub(earlier) < QUIT_WINDOW_NS,
        None => false,
    }
}

/// The signal for a step that left the messages alone.
fn signal_of(changed: bool) -> (signal: AppEvent)
    ensures
        signal == if changed {
            AppEvent::InputChanged
        } else {
            AppEvent::Continue
        },
{
    if changed {
        AppEvent::InputChanged
    } else {
        AppEvent::Continue
    }
}

/// Appends `c` to the input buffer.
fn push_char(app: &mut App, c: char) -> (signal: AppEvent)
    ensures
        final(app)@ == (AppView { input: old(app)@.input.push(c), ..old(app)@ }),
        final(app).messages@ == old(app).messages@,
        signal == redraw_signal(old(app)@, final(app)@),
{
    app.input.push(c);
    assert(app@.input.len() != old(app)@.input.len());
    AppEvent::InputChanged
}

/// Applies a key that edits text.
fn text_key(app: &mut App, key: KeyEvent) -> (signal: AppEvent)
    ensures
        final(app)@ == after_text_key(old(app)@, key),
        final(app).messages@ == old(app).messages@,
        signal == redraw_signal(old(app)@, final(app)@),
{
    match key.code {
        KeyCode::Char(c) => push_char(app, c),
        KeyCode::Backspace => {
            let removed = app.input.pop();
            assert(removed is Some ==> app@.input.len() != old(app)@.input.len());
            signal_of(removed.is_some())
        },
        _ => AppEvent::Continue,
    }
}

/// Applies a key in Normal mode.
fn normal_key(app: &mut App, key: KeyEvent) -> (signal: AppEvent)
    requires
        old(app).input_mode == InputMode::Normal,
        !key.is_quit_chord(),
    ensures
        final(app)@ == after_normal_key(old(app)@, key),
        final(app).messages@ == old(app).messages@,
        signal == if key.code == KeyCode::Char('q') {
            AppEvent::Quit
        } else {
            redraw_signal(old(app)@, final(app)@)
        },
{
    match key.code {
        KeyCode::Char(c) => {
            if c == 'e' {
                app.input_mode = InputMode::Editing;
                AppEvent::InputChanged
            } else if c == '/' {
                app.input = String::from_str("/");
                app.input_mode = InputMode::Command;
                proof {
                    reveal_strlit("/");
                    assert(app@.input =~= seq!['/']);
                }
                AppEvent::InputChanged
            } else if c == 'q' {
                AppEvent::Quit
            } else {
                AppEvent::Continue
            }
        },
        _ => AppEvent::Continue,
    }
}

/// Applies a key in Editing mode.
fn editing_key(app: &mut App, key: KeyEvent) -> (signal: AppEvent)
    requires
        old(app).input_mode == InputMode::Editing,
    ensures
        final(app)@ == after_editing_key(old(app)@, key),
        history_kept(old(app).messages@, final(app).messages@),
        signal == redraw_signal(old(app)@, final(app)@),
{
    let offset_before = app.scroll_offset;
    match key.code {
        KeyCode::Enter => {
            if key.alt {
                push_char(app, '\n')
            } else {
                let count_before = app.messages.len();
                let typed = app.input.as_str().unicode_len() > 0;
                app.send_message();
                if app.messages.len() != count_before {
                    assert(app@.messages.len() != old(app)@.messages.len());
                    AppEvent::MessageSent
                } else {
                    assert(app@.messages.len() == old(app)@.messages.len());
                    assert(app@.messages == old(app)@.messages);
                    assert(typed ==> app@.input.len() != old(app)@.input.len());
                    assert(!typed ==> app@.input =~= old(app)@.input);
                    signal_of(typed)
                }
            }
        },
        KeyCode::Esc => {
            app.input_mode = InputMode::Normal;
            AppEvent::InputChanged
        },
        KeyCode::Up => {
            if key.control {
                app.scroll_up(SCROLL_STEP);
            }
            signal_of(app.scroll_offset != offset_before)
        },
        KeyCode::Down => {
            if key.control {
                app.scroll_down(SCROLL_STEP);
            }
            signal_of(app.scroll_offset != offset_before)
        },
        KeyCode::PageUp => {
            app.scroll_up(SCROLL_PAGE);
            signal_of(app.scroll_offset != offset_before)
        },
        KeyCode::PageDown => {
            app.scroll_down(SCROLL_PAGE);
            signal_of(app.scroll_offset != offset_before)
        },
        KeyCode::Home => {
            if key.control {
                app.scroll_to_top();
            }
            signal_of(app.scroll_offset != offset_before)
        },
        KeyCode::End => {
            if key.control {
                app.scroll_to_bottom();
            }
            signal_of(app.scroll_offset != offset_before)
        },
        _ => text_key(app, key),
    }
}

/// Applies a key in Command mode.
fn command_key(app: &mut App, key: KeyEvent) -> (signal: AppEvent)
    requires
        old(app).input_mode == InputMode::Command,
    ensures
        final(app)@ == after_command_key(old(app)@, key),
        final(app).messages@ == old(app).messages@,
        signal == redraw_signal(old(app)@, final(app)@),
{
    match key.code {
        KeyCode::Enter => {
            if key.alt {
                push_char(app, '\n')
            } else {
                app.input = String::new();
                app.input_mode = InputMode::Normal;
                AppEvent::InputChanged
            }
        },
        KeyCode::Esc => {
            app.input = String::new();
            app.input_mode = InputMode::Normal;
            AppEvent::InputChanged
        },
        _ => text_key(app, key),
    }
}

/// Applies one key press at `now_ns`.
pub fn handle_key(app: &mut App, key: KeyEvent, now_ns: u64) -> (signal: AppEvent)
    ensures
        final(app)@ == after_key(old(app)@, key, now_ns),
        signal == outcome(old(app)@, InputEvent::Key(key), now_ns),
        history_kept(old(app).messages@, final(app).messages@),
{
    let is_c = match key.code {
        KeyCode::Char(c) => c == 'c',
        _ => false,
    };
    if is_c && key.control {
        if confirms_quit(app.last_ctrl_c, now_ns) {
            AppEvent::Quit
        } else {
            app.last_ctrl_c = Some(now_ns);
            AppEvent::Continue
        }
    } else {
        match app.input_mode {
            InputMode::Normal => normal_key(app, key),
            InputMode::Editing => editing_key(app, key),
            InputMode::Command => command_key(app, key),
        }
    }
}

/// Applies one terminal event, read at `now_ns` nanoseconds on a monotonic
/// clock, to the state, and says what the caller has to do next.
pub fn handle_event(app: &mut App, event: InputEvent, now_ns: u64) -> (signal: AppEvent)
    ensures
        final(app)@ == next_state(old(app)@, event, now_ns),
        signal == outcome(old(app)@, event, now_ns),
        old(app)@.wf() ==> final(app)@.wf(),
        history_kept(old(app).messages@, final(app).messages@),
{
    let offset_before = app.scroll_offset;
    match event {
        InputEvent::Key(key) => handle_key(app, key, now_ns),
        InputEvent::Mouse(MouseEventKind::ScrollUp) => {
            app.scroll_up(SCROLL_STEP);
            signal_of(app.scroll_offset != offset_before)
        },
        InputEvent::Mouse(MouseEventKind::ScrollDown) => {
            app.scroll_down(SCROLL_STEP);
            signal_of(app.scroll_offset != offset_before)
        },
        _ => AppEvent::Continue,
    }
}

} // verus!
