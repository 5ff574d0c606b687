//! The key listener: the worker that watches terminal input and forwards one
//! quit signal.
//!
//! The worker reads input events one after another and hands each to
//! [`listen`]. It sends the signal when told to, and returns as soon as the
//! listener has finished.

use vstd::prelude::*;
use crate::trace::{occurrences, lemma_occurrences_push};

verus! {

/// The character whose key press asks the program to quit. Case matters.
pub const QUIT_KEY: char = 'q';

/// What the listener needs to know of a terminal input event.
#[derive(Clone, Copy, Debug, PartialEq, Eq)]
pub enum InputEvent {
    /// The key for this character was pressed.
    KeyPress(char),
    /// Anything else: another kind of key, a resize, the mouse.
    Other,
}

/// Whether the worker is still reading input.
#[derive(Clone, Copy, Debug, PartialEq, Eq)]
pub enum ListenerState {
    /// No quit key has been seen.
    Listening,
    /// The quit signal has been sent; the worker reads no further.
    Finished,
}

/// What the worker does with one input event.
#[derive(Clone, Copy, Debug, PartialEq, Eq)]
pub enum ListenerAction {
    /// Drop the event.
    Discard,
    /// Send the quit signal, then return.
    SendQuit,
}

/// Whether `event` is a press of the quit key.
pub open spec fn is_quit(event: InputEvent) -> bool {
    event == InputEvent::KeyPress('q')
}

/// The listener's state after it has seen `event` in `state`.
pub open spec fn heard(state: ListenerState, event: InputEvent) -> ListenerState {
    if state == ListenerState::Listening && !is_quit(event) {
        ListenerState::Listening
    } else {
        ListenerState::Finished
    }
}

/// What the worker does with `event` in `state`.
pub open spec fn answer(state: ListenerState, event: InputEvent) -> ListenerAction {
    if state == ListenerState::Listening && is_quit(event) {
        ListenerAction::SendQuit
    } else {
        ListenerAction::Discard
    }
}

/// The listener's state after a run of events, starting out listening.
pub open spec fn state_after(events: Seq<InputEvent>) -> ListenerState
    decreases events.len(),
{
    if events.len() == 0 {
        ListenerState::Listening
    } else {
        heard(state_after(events.drop_last()), events.last())
    }
}

/// What the worker did with each event of a run, starting out listening.
pub open spec fn actions_after(events: Seq<InputEvent>) -> Seq<ListenerAction>
    decreases events.len(),
{
    if events.len() == 0 {
        Seq::empty()
    } else {
        actions_after(events.drop_last()).push(
            answer(state_after(events.drop_last()), events.last()),
        )
    }
}

/// Tells whether `event` is a press of the quit key.
pub fn quits(event: InputEvent) -> (quit: bool)
    ensures
        quit == is_quit(event),
{
    match event {
        InputEvent::KeyPress(key) => key == QUIT_KEY,
        InputEvent::Other => false,
    }
}

/// Handles one input event: the first press of the quit key sends the signal
/// and finishes the listener; every other event is discarded.
pub fn listen(state: ListenerState, event: InputEvent) -> (step: (ListenerState, ListenerAction))
    ensures
        step.0 == heard(state, event),
        step.1 == answer(state, event),
{
    match state {
        ListenerState::Listening => {
            if quits(event) {
                (ListenerState::Finished, ListenerAction::SendQuit)
            } else {
                (ListenerState::Listening, ListenerAction::Discard)
            }
        },
        ListenerState::Finished => (ListenerState::Finished, ListenerAction::Discard),
    }
}

/// The listener has finished exactly when a press of the quit key is among
/// the events it has seen.
pub proof fn lemma_finished_iff_quit_seen(events: Seq<InputEvent>)
    ensures
        state_after(events) == ListenerState::Finished <==> exists|i: int|
            0 <= i < events.len() && is_quit(events[i]),
    decreases events.len(),
{
    if events.len() > 0 {
        let before = events.drop_last();
        lemma_finished_iff_quit_seen(before);
        if state_after(before) == ListenerState::Finished {
            let i = choose|i: int| 0 <= i < before.len() && is_quit(before[i]);
            assert(is_quit(events[i]));
        } else if is_quit(events.last()) {
            assert(is_quit(events[events.len() - 1]));
        } else {
            assert forall|i: int| 0 <= i < events.len() implies !is_quit(events[i]) by {
                if i < before.len() {
                    assert(before[i] == events[i]);
                }
            }
        }
    }
}

/// The quit signal is sent at most once, whatever the input: once when a
/// press of the quit key is among the events, and never otherwise.
pub proof fn lemma_quit_sent_at_most_once(events: Seq<InputEvent>)
    ensures
        occurrences(actions_after(events), ListenerAction::SendQuit) <= 1,
        occurrences(actions_after(events), ListenerAction::SendQuit) == 1 <==> exists|i: int|
            0 <= i < events.len() && is_quit(events[i]),
        occurrences(actions_after(events), ListenerAction::SendQuit) == 1 <==> state_after(events)
            == ListenerState::Finished,
    decreases events.len(),
{
    lemma_finished_iff_quit_seen(events);
    if events.len() > 0 {
        let before = events.drop_last();
        lemma_quit_sent_at_most_once(before);
        lemma_occurrences_push(
            actions_after(before),
            answer(state_after(before), events.last()),
            ListenerAction::SendQuit,
        );
    }
}

/// The signal is sent for the first press of the quit key and for no other
/// event, and the listener has finished as soon as that event is handled.
pub proof fn lemma_quit_sent_on_first_press(events: Seq<InputEvent>, at: int)
    requires
        0 <= at < events.len(),
    ensures
        actions_after(events).len() == events.len(),
        actions_after(events)[at] == ListenerAction::SendQuit <==> is_quit(events[at]) && forall|
            i: int,
        | 0 <= i < at ==> !is_quit(events[i]),
        is_quit(events[at]) ==> state_after(events.take(at + 1)) == ListenerState::Finished,
    decreases events.len(),
{
    let before = events.drop_last();
    lemma_actions_len(events);
    lemma_actions_len(before);
    if at < events.len() - 1 {
        lemma_quit_sent_on_first_press(before, at);
        assert(before.take(at + 1) =~= events.take(at + 1));
        assert(before[at] == events[at]);
        assert forall|i: int| 0 <= i < at implies before[i] == events[i] by {}
    } else {
        lemma_finished_iff_quit_seen(before);
        assert(events.take(at + 1) =~= events);
        if state_after(before) == ListenerState::Finished {
            let i = choose|i: int| 0 <= i < before.len() && is_quit(before[i]);
            assert(is_quit(events[i]));
        } else {
            assert forall|i: int| 0 <= i < at implies !is_quit(events[i]) by {
                assert(before[i] == events[i]);
            }
        }
    }
}

/// The worker answers every event with one action.
pub proof fn lemma_actions_len(events: Seq<InputEvent>)
    ensures
        actions_after(events).len() == events.len(),
    decreases events.len(),
{
    if events.len() > 0 {
        lemma_actions_len(events.drop_last());
    }
}

} // verus!
