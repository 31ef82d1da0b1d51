//! What holds of the event handler over every state and every event, proved
//! from the definitions in [`crate::handlers`].

use vstd::prelude::*;
use crate::app::{placeholder_reply, AppView};
use crate::events::{InputEvent, KeyCode, KeyEvent};
use crate::handlers::{elapsed_ns, next_state, outcome, AppEvent, QUIT_WINDOW_NS};
use crate::state::InputMode;
use crate::text::is_blank;
use crate::types::{MessageRole, MessageView};

verus! {

/// An event together with the time at which it was read.
pub type TimedEvent = (InputEvent, u64);

/// The state after the events, applied in order.
pub open spec fn after_events(s: AppView, events: Seq<TimedEvent>) -> AppView
    decreases events.len(),
{
    if events.len() == 0 {
        s
    } else {
        next_state(after_events(s, events.drop_last()), events.last().0, events.last().1)
    }
}

/// The key is a character key other than Ctrl+C.
pub open spec fn types_a_char(key: KeyEvent) -> bool {
    key.code is Char && !key.is_quit_chord()
}

/// The characters that the keys produce.
pub open spec fn typed_text(keys: Seq<KeyEvent>) -> Seq<char> {
    keys.map_values(|key: KeyEvent| key.code->Char_0)
}

/// The keys as events, the `i`-th read at `times[i]`.
pub open spec fn key_presses(keys: Seq<KeyEvent>, times: Seq<u64>) -> Seq<TimedEvent> {
    Seq::new(keys.len(), |i: int| (InputEvent::Key(keys[i]), times[i]))
}

/// Enter with no modifier held.
pub open spec fn enter() -> InputEvent {
    InputEvent::Key(KeyEvent::plain(KeyCode::Enter))
}

/// Ctrl+C.
pub open spec fn ctrl_c() -> InputEvent {
    InputEvent::Key(KeyEvent { code: KeyCode::Char('c'), control: true, alt: false })
}

/// Typing in Editing mode appends what was typed to the input buffer and
/// changes nothing else.
pub proof fn lemma_typing_fills_buffer(s: AppView, keys: Seq<KeyEvent>, times: Seq<u64>)
    requires
        s.input_mode == InputMode::Editing,
        times.len() == keys.len(),
        forall|i: int| 0 <= i < keys.len() ==> types_a_char(#[trigger] keys[i]),
    ensures
        after_events(s, key_presses(keys, times)) == (AppView {
            input: s.input + typed_text(keys),
            ..s
        }),
    decreases keys.len(),
{
    let events = key_presses(keys, times);
    if keys.len() == 0 {
        assert(s.input + typed_text(keys) =~= s.input);
    } else {
        let front = keys.drop_last();
        let front_times = times.drop_last();
        lemma_typing_fills_buffer(s, front, front_times);
        assert(events.drop_last() =~= key_presses(front, front_times));
        assert(events.last() == (InputEvent::Key(keys.last()), times.last()));
        assert(types_a_char(keys.last()));
        assert(typed_text(keys) =~= typed_text(front).push(keys.last().code->Char_0));
        assert((s.input + typed_text(front)).push(keys.last().code->Char_0) =~= s.input
            + typed_text(keys));
    }
}

/// Character keys followed by Enter, in Editing mode and from an empty
/// buffer: if what was typed is more than white space, exactly two messages
/// are added, the user's with the typed text and then the placeholder reply
/// to it, and the buffer is empty again.
pub proof fn lemma_typed_text_is_sent(
    s: AppView,
    keys: Seq<KeyEvent>,
    times: Seq<u64>,
    enter_at: u64,
)
    requires
        s.input_mode == InputMode::Editing,
        s.input.len() == 0,
        times.len() == keys.len(),
        forall|i: int| 0 <= i < keys.len() ==> types_a_char(#[trigger] keys[i]),
        !is_blank(typed_text(keys)),
    ensures
        ({
            let typed = after_events(s, key_presses(keys, times));
            let sent = next_state(typed, enter(), enter_at);
            &&& sent.messages == s.messages.push(
                MessageView { role: MessageRole::User, content: typed_text(keys) },
            ).push(
                MessageView {
                    role: MessageRole::Assistant,
                    content: placeholder_reply(typed_text(keys)),
                },
            )
            &&& sent.input.len() == 0
            &&& sent.input_mode == InputMode::Editing
            &&& outcome(typed, enter(), enter_at) == AppEvent::MessageSent
        }),
{
    lemma_typing_fills_buffer(s, keys, times);
    assert(s.input + typed_text(keys) =~= typed_text(keys));
    let typed = after_events(s, key_presses(keys, times));
    let sent = next_state(typed, enter(), enter_at);
    assert(sent.messages.len() != typed.messages.len());
}

/// Enter on a buffer that is empty, or holds only white space, adds no
/// message; it leaves the buffer empty.
pub proof fn lemma_blank_buffer_sends_nothing(s: AppView, now: u64)
    requires
        s.input_mode == InputMode::Editing,
        is_blank(s.input),
    ensures
        next_state(s, enter(), now).messages == s.messages,
        next_state(s, enter(), now).input.len() == 0,
        outcome(s, enter(), now) != AppEvent::MessageSent,
        s.input.len() == 0 ==> next_state(s, enter(), now) == s && outcome(s, enter(), now)
            == AppEvent::Continue,
{
    if s.input.len() == 0 {
        assert(s.input =~= Seq::empty());
    }
}

/// Two presses of Ctrl+C at `first` and `second`, where the first one did
/// not itself quit: the second quits exactly if it comes less than
/// [`QUIT_WINDOW_NS`] after the first, and otherwise it becomes the press on
/// record.
pub proof fn lemma_double_ctrl_c(s: AppView, first: u64, second: u64)
    requires
        outcome(s, ctrl_c(), first) != AppEvent::Quit,
    ensures
        ({
            let pressed = next_state(s, ctrl_c(), first);
            &&& outcome(s, ctrl_c(), first) == AppEvent::Continue
            &&& pressed == (AppView { last_ctrl_c: Some(first), ..s })
            &&& elapsed_ns(first, second) < QUIT_WINDOW_NS ==> outcome(pressed, ctrl_c(), second)
                == AppEvent::Quit
            &&& elapsed_ns(first, second) >= QUIT_WINDOW_NS ==> {
                &&& outcome(pressed, ctrl_c(), second) == AppEvent::Continue
                &&& next_state(pressed, ctrl_c(), second).last_ctrl_c == Some(second)
            }
        }),
{
}

/// A single Ctrl+C, with none on record, never quits.
pub proof fn lemma_single_ctrl_c_never_quits(s: AppView, now: u64)
    requires
        s.last_ctrl_c is None,
    ensures
        outcome(s, ctrl_c(), now) == AppEvent::Continue,
        next_state(s, ctrl_c(), now).last_ctrl_c == Some(now),
{
}

/// Enter with Alt held, in a mode that edits text, appends a line break to
/// the buffer and sends nothing.
pub proof fn lemma_alt_enter_breaks_line(s: AppView, control: bool, now: u64)
    requires
        s.input_mode != InputMode::Normal,
    ensures
        ({
            let event = InputEvent::Key(KeyEvent { code: KeyCode::Enter, control, alt: true });
            &&& next_state(s, event, now) == (AppView { input: s.input.push('\n'), ..s })
            &&& outcome(s, event, now) == AppEvent::InputChanged
        }),
{
    assert(s.input.push('\n').len() != s.input.len());
}

/// In Normal mode `e` starts editing, `/` opens a command line that holds
/// just the slash, and `q` quits. Modifiers other than Ctrl+C make no
/// difference.
pub proof fn lemma_normal_mode_keys(s: AppView, control: bool, alt: bool, now: u64)
    requires
        s.input_mode == InputMode::Normal,
    ensures
        ({
            let e = InputEvent::Key(KeyEvent { code: KeyCode::Char('e'), control, alt });
            let slash = InputEvent::Key(KeyEvent { code: KeyCode::Char('/'), control, alt });
            let q = InputEvent::Key(KeyEvent { code: KeyCode::Char('q'), control, alt });
            &&& next_state(s, e, now) == (AppView { input_mode: InputMode::Editing, ..s })
            &&& next_state(s, slash, now) == (AppView {
                input: seq!['/'],
                input_mode: InputMode::Command,
                ..s
            })
            &&& outcome(s, q, now) == AppEvent::Quit
            &&& next_state(s, q, now) == s
        }),
{
}

/// In Normal mode every key but `e`, `/`, `q` and Ctrl+C is ignored.
pub proof fn lemma_normal_mode_ignores_other_keys(s: AppView, key: KeyEvent, now: u64)
    requires
        s.input_mode == InputMode::Normal,
        !key.is_quit_chord(),
        key.code != KeyCode::Char('e'),
        key.code != KeyCode::Char('/'),
        key.code != KeyCode::Char('q'),
    ensures
        next_state(s, InputEvent::Key(key), now) == s,
        outcome(s, InputEvent::Key(key), now) == AppEvent::Continue,
{
}

/// Esc leads to Normal mode from every mode. It empties the buffer when it
/// leaves Command mode, and only then.
pub proof fn lemma_escape_returns_to_normal(s: AppView, control: bool, alt: bool, now: u64)
    ensures
        ({
            let esc = InputEvent::Key(KeyEvent { code: KeyCode::Esc, control, alt });
            let after = next_state(s, esc, now);
            &&& after.input_mode == InputMode::Normal
            &&& s.input_mode == InputMode::Command ==> after.input.len() == 0
            &&& s.input_mode != InputMode::Command ==> after.input == s.input
            &&& after.messages == s.messages
            &&& after.scroll_offset == s.scroll_offset
        }),
{
}

/// No event moves the scroll offset past the oldest message: a state whose
/// offset is in bounds stays so.
pub proof fn lemma_scroll_stays_in_bounds(s: AppView, event: InputEvent, now: u64)
    requires
        s.wf(),
    ensures
        next_state(s, event, now).wf(),
{
}

/// From the first state on, the scroll offset is in bounds after every run
/// of events.
pub proof fn lemma_scroll_in_bounds_after_events(s: AppView, events: Seq<TimedEvent>)
    requires
        s.wf(),
    ensures
        after_events(s, events).wf(),
    decreases events.len(),
{
    if events.len() > 0 {
        lemma_scroll_in_bounds_after_events(s, events.drop_last());
        lemma_scroll_stays_in_bounds(
            after_events(s, events.drop_last()),
            events.last().0,
            events.last().1,
        );
    }
}

/// No event removes or changes a message: the conversation before is the
/// start of the conversation after.
pub proof fn lemma_messages_are_kept(s: AppView, event: InputEvent, now: u64)
    ensures
        s.messages.is_prefix_of(next_state(s, event, now).messages),
{
    let after = next_state(s, event, now);
    if after.messages != s.messages {
        assert(after == s.submitted());
        assert(after.messages.take(s.messages.len() as int) =~= s.messages);
    } else {
        assert(s.messages.is_prefix_of(s.messages));
    }
}

/// The signal tells the caller all that has changed on screen: after
/// `Continue` and `Quit` nothing has, after `InputChanged` the conversation
/// has not, and `MessageSent` comes exactly when the conversation has grown.
pub proof fn lemma_signal_tells_what_changed(s: AppView, event: InputEvent, now: u64)
    ensures
        ({
            let after = next_state(s, event, now);
            let signal = outcome(s, event, now);
            &&& signal == AppEvent::Continue || signal == AppEvent::Quit ==> {
                &&& after.input == s.input
                &&& after.messages == s.messages
                &&& after.input_mode == s.input_mode
                &&& after.scroll_offset == s.scroll_offset
            }
            &&& signal == AppEvent::InputChanged ==> after.messages == s.messages
            &&& signal == AppEvent::MessageSent <==> after.messages.len() == s.messages.len() + 2
            &&& signal != AppEvent::MessageSent ==> after.messages == s.messages
        }),
{
    let after = next_state(s, event, now);
    if after.messages != s.messages {
        assert(after == s.submitted());
    }
}

} // verus!
