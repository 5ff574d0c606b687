//! The event coordinator: the main loop's reaction to wake-ups and to the
//! quit signal.
//!
//! The program creates the timer, calls [`start`] once and performs the
//! actions it returns, in order. Whenever the wait on the timer or the quit
//! channel resolves, it hands the event to [`step`] and performs what comes
//! back, until the loop is shutting down.

use vstd::prelude::*;
use crate::bridge::{Wake, WakeError};
use crate::trace::{occurrences, lemma_occurrences_concat, lemma_occurrences_push};

verus! {

/// Where the main loop stands.
#[derive(Clone, Copy, Debug, PartialEq, Eq)]
pub enum LoopState {
    /// Drawing and waiting.
    Running,
    /// Leaving, or gone. Nothing brings the loop back from here.
    ShuttingDown,
}

/// What the main loop is woken by.
#[derive(Clone, Copy, Debug, PartialEq, Eq)]
pub enum LoopEvent {
    /// The wait on the timer has ended with this result.
    Woke(Result<Wake, WakeError>),
    /// The quit channel has resolved.
    Quit,
}

/// What the main loop does next.
#[derive(Clone, Copy, Debug, PartialEq, Eq)]
pub enum LoopAction {
    /// Start the key listener on a thread of its own.
    SpawnWorker,
    /// Take over the terminal.
    InitTerminal,
    /// Draw the display.
    Draw,
    /// Wait for the timer or the quit channel, whichever resolves first.
    Wait,
    /// Give the terminal back in the mode it was found in.
    RestoreTerminal,
    /// Block until the key listener has returned.
    JoinWorker,
    /// End the program with this error.
    Fail(WakeError),
}

/// Whether `event` ends the loop: the quit signal, or a wait that failed.
pub open spec fn stops(event: LoopEvent) -> bool {
    match event {
        LoopEvent::Woke(Ok(_)) => false,
        LoopEvent::Woke(Err(_)) => true,
        LoopEvent::Quit => true,
    }
}

/// The state of the loop after it has handled `event` in `state`.
pub open spec fn next_state(state: LoopState, event: LoopEvent) -> LoopState {
    if state == LoopState::Running && !stops(event) {
        LoopState::Running
    } else {
        LoopState::ShuttingDown
    }
}

/// What the loop does, in order, when `event` reaches it in `state`.
pub open spec fn reaction(state: LoopState, event: LoopEvent) -> Seq<LoopAction> {
    match (state, event) {
        (LoopState::ShuttingDown, _) => seq![],
        (LoopState::Running, LoopEvent::Woke(Ok(Wake::Tick))) => seq![
            LoopAction::Draw,
            LoopAction::Wait,
        ],
        (LoopState::Running, LoopEvent::Woke(Ok(Wake::Resynced))) => seq![LoopAction::Wait],
        (LoopState::Running, LoopEvent::Woke(Err(error))) => seq![
            LoopAction::RestoreTerminal,
            LoopAction::Fail(error),
        ],
        (LoopState::Running, LoopEvent::Quit) => seq![
            LoopAction::RestoreTerminal,
            LoopAction::JoinWorker,
        ],
    }
}

/// What the loop does when it starts.
pub open spec fn opening() -> Seq<LoopAction> {
    seq![LoopAction::SpawnWorker, LoopAction::InitTerminal, LoopAction::Draw, LoopAction::Wait]
}

/// The state of a loop that was started and has then handled `events`.
pub open spec fn state_after(events: Seq<LoopEvent>) -> LoopState
    decreases events.len(),
{
    if events.len() == 0 {
        LoopState::Running
    } else {
        next_state(state_after(events.drop_last()), events.last())
    }
}

/// Everything a loop has done, in order, that was started and has then
/// handled `events`.
pub open spec fn actions_after(events: Seq<LoopEvent>) -> Seq<LoopAction>
    decreases events.len(),
{
    if events.len() == 0 {
        opening()
    } else {
        actions_after(events.drop_last()) + reaction(
            state_after(events.drop_last()),
            events.last(),
        )
    }
}

/// The events that reach the loop while it is running: those before the first
/// one that stops it.
pub open spec fn while_running(events: Seq<LoopEvent>) -> Seq<LoopEvent>
    decreases events.len(),
{
    if events.len() == 0 {
        events
    } else if state_after(events.drop_last()) == LoopState::Running && !stops(events.last()) {
        events
    } else {
        while_running(events.drop_last())
    }
}

/// Starts the loop: it starts the one key listener, takes over the terminal,
/// draws once, at once, and only then waits.
pub fn start() -> (begun: (LoopState, Vec<LoopAction>))
    ensures
        begun.0 == LoopState::Running,
        begun.1@ == opening(),
{
    let actions = vec![
        LoopAction::SpawnWorker,
        LoopAction::InitTerminal,
        LoopAction::Draw,
        LoopAction::Wait,
    ];
    assert(actions@ =~= opening());
    (LoopState::Running, actions)
}

/// Handles one event. While running, a tick is drawn and the loop waits
/// again; a wake that only armed the timer again is not drawn; the quit
/// signal restores the terminal and joins the key listener; a failed wait
/// restores the terminal and ends the program with the error. Once the loop
/// is shutting down, it does nothing more.
pub fn step(state: LoopState, event: LoopEvent) -> (stepped: (LoopState, Vec<LoopAction>))
    ensures
        stepped.0 == next_state(state, event),
        stepped.1@ == reaction(state, event),
{
    let stepped = match state {
        LoopState::ShuttingDown => (LoopState::ShuttingDown, Vec::new()),
        LoopState::Running => match event {
            LoopEvent::Woke(Ok(Wake::Tick)) => (
                LoopState::Running,
                vec![LoopAction::Draw, LoopAction::Wait],
            ),
            LoopEvent::Woke(Ok(Wake::Resynced)) => (LoopState::Running, vec![LoopAction::Wait]),
            LoopEvent::Woke(Err(error)) => (
                LoopState::ShuttingDown,
                vec![LoopAction::RestoreTerminal, LoopAction::Fail(error)],
            ),
            LoopEvent::Quit => (
                LoopState::ShuttingDown,
                vec![LoopAction::RestoreTerminal, LoopAction::JoinWorker],
            ),
        },
    };
    assert(stepped.1@ =~= reaction(state, event));
    stepped
}

/// A loop draws before it first waits: its first four actions are those of
/// the start, with the draw right before the wait and no wait before it.
pub proof fn lemma_draws_before_first_wait(events: Seq<LoopEvent>)
    ensures
        actions_after(events).len() >= 4,
        actions_after(events).take(4) == opening(),
        actions_after(events)[2] == LoopAction::Draw,
        actions_after(events)[3] == LoopAction::Wait,
        forall|i: int| 0 <= i < 3 ==> actions_after(events)[i] != LoopAction::Wait,
    decreases events.len(),
{
    if events.len() == 0 {
        assert(opening().take(4) =~= opening());
    } else {
        let before = events.drop_last();
        lemma_draws_before_first_wait(before);
        assert(actions_after(events).take(4) =~= actions_after(before).take(4));
    }
}

/// The loop is running exactly as long as no event has stopped it.
pub proof fn lemma_running_iff_never_stopped(events: Seq<LoopEvent>)
    ensures
        state_after(events) == LoopState::Running <==> forall|i: int|
            0 <= i < events.len() ==> !stops(events[i]),
{
    lemma_running_prefix(events);
}

/// A loop that is shutting down stays so and does nothing more, whatever
/// reaches it: no draw follows the event that stopped it.
pub proof fn lemma_shutdown_is_final(events: Seq<LoopEvent>, later: Seq<LoopEvent>)
    requires
        state_after(events) == LoopState::ShuttingDown,
    ensures
        state_after(events + later) == LoopState::ShuttingDown,
        actions_after(events + later) == actions_after(events),
    decreases later.len(),
{
    if later.len() == 0 {
        assert(events + later =~= events);
    } else {
        lemma_shutdown_is_final(events, later.drop_last());
        assert((events + later).drop_last() =~= events + later.drop_last());
        assert((events + later).last() == later.last());
        assert(actions_after(events + later) =~= actions_after(events));
    }
}

/// The events that reach a running loop are the events up to the first one
/// that stops it, and all of them where none does.
pub proof fn lemma_running_prefix(events: Seq<LoopEvent>)
    ensures
        ({
            let reached = while_running(events).len() as int;
            &&& reached <= events.len()
            &&& while_running(events) == events.take(reached)
            &&& forall|i: int| 0 <= i < reached ==> !stops(events[i])
            &&& reached < events.len() ==> stops(events[reached])
            &&& reached == events.len() <==> state_after(events) == LoopState::Running
        }),
    decreases events.len(),
{
    if events.len() == 0 {
        assert(events.take(0) =~= events);
    } else {
        let before = events.drop_last();
        let reached = while_running(before).len() as int;
        lemma_running_prefix(before);
        if state_after(before) == LoopState::Running && !stops(events.last()) {
            assert(events.take(events.len() as int) =~= events);
            assert forall|i: int| 0 <= i < events.len() implies !stops(events[i]) by {
                if i < before.len() {
                    assert(before[i] == events[i]);
                }
            }
        } else {
            assert(before.take(reached) =~= events.take(reached));
            assert forall|i: int| 0 <= i < reached implies !stops(events[i]) by {
                assert(before[i] == events[i]);
            }
            if reached < before.len() {
                assert(before[reached] == events[reached]);
            }
        }
    }
}

/// How often an action occurs in one reaction, which holds two actions at
/// most.
proof fn lemma_reaction_counts(state: LoopState, event: LoopEvent, action: LoopAction)
    ensures
        ({
            let done = reaction(state, event);
            &&& done.len() <= 2
            &&& occurrences(done, action) == (if done.len() >= 1 && done[0] == action {
                1nat
            } else {
                0nat
            }) + (if done.len() == 2 && done[1] == action {
                1nat
            } else {
                0nat
            })
        }),
{
    let done = reaction(state, event);
    if done.len() == 1 {
        assert(done =~= Seq::empty().push(done[0]));
        lemma_occurrences_push(Seq::empty(), done[0], action);
    } else if done.len() == 2 {
        assert(done =~= Seq::empty().push(done[0]).push(done[1]));
        lemma_occurrences_push(Seq::empty(), done[0], action);
        lemma_occurrences_push(Seq::empty().push(done[0]), done[1], action);
    }
}

/// The display is drawn once at the start and once for every tick that
/// reaches the loop while it is running, and at no other time: not for a wake
/// that only armed the timer again, and not once the loop has been stopped.
pub proof fn lemma_one_draw_per_tick(events: Seq<LoopEvent>)
    ensures
        occurrences(actions_after(events), LoopAction::Draw) == 1 + occurrences(
            while_running(events),
            LoopEvent::Woke(Ok(Wake::Tick)),
        ),
    decreases events.len(),
{
    if events.len() == 0 {
        lemma_opening_counts(LoopAction::Draw);
    } else {
        let before = events.drop_last();
        let state = state_after(before);
        lemma_one_draw_per_tick(before);
        lemma_occurrences_concat(
            actions_after(before),
            reaction(state, events.last()),
            LoopAction::Draw,
        );
        lemma_reaction_counts(state, events.last(), LoopAction::Draw);
        if state == LoopState::Running && !stops(events.last()) {
            lemma_running_prefix(before);
            assert(events =~= before.push(events.last()));
            lemma_occurrences_push(before, events.last(), LoopEvent::Woke(Ok(Wake::Tick)));
        }
    }
}

/// Whatever reaches the loop, it starts the key listener exactly once and
/// takes over the terminal exactly once, both when it starts.
pub proof fn lemma_starts_once(events: Seq<LoopEvent>)
    ensures
        occurrences(actions_after(events), LoopAction::SpawnWorker) == 1,
        occurrences(actions_after(events), LoopAction::InitTerminal) == 1,
    decreases events.len(),
{
    if events.len() == 0 {
        lemma_opening_counts(LoopAction::SpawnWorker);
        lemma_opening_counts(LoopAction::InitTerminal);
    } else {
        let before = events.drop_last();
        let state = state_after(before);
        let done = reaction(state, events.last());
        lemma_starts_once(before);
        lemma_occurrences_concat(actions_after(before), done, LoopAction::SpawnWorker);
        lemma_occurrences_concat(actions_after(before), done, LoopAction::InitTerminal);
        lemma_reaction_counts(state, events.last(), LoopAction::SpawnWorker);
        lemma_reaction_counts(state, events.last(), LoopAction::InitTerminal);
    }
}

/// The loop shuts down at most once, on the first event that stops it. It
/// restores the terminal exactly when it has been stopped; it joins the key
/// listener exactly when the quit signal stopped it; and it ends the program
/// with an error exactly when a failed wait stopped it, with the error of
/// that wait.
pub proof fn lemma_shuts_down_once(events: Seq<LoopEvent>, error: WakeError)
    ensures
        ({
            let reached = while_running(events).len() as int;
            let actions = actions_after(events);
            let stopped = reached < events.len();
            &&& occurrences(actions, LoopAction::RestoreTerminal) == if stopped {
                1nat
            } else {
                0nat
            }
            &&& occurrences(actions, LoopAction::JoinWorker) == if stopped && events[reached]
                == LoopEvent::Quit {
                1nat
            } else {
                0nat
            }
            &&& occurrences(actions, LoopAction::Fail(error)) == if stopped && events[reached]
                == LoopEvent::Woke(Err(error)) {
                1nat
            } else {
                0nat
            }
        }),
    decreases events.len(),
{
    lemma_running_prefix(events);
    if events.len() == 0 {
        lemma_opening_counts(LoopAction::RestoreTerminal);
        lemma_opening_counts(LoopAction::JoinWorker);
        lemma_opening_counts(LoopAction::Fail(error));
    } else {
        let before = events.drop_last();
        let state = state_after(before);
        let done = reaction(state, events.last());
        lemma_shuts_down_once(before, error);
        lemma_running_prefix(before);
        lemma_occurrences_concat(actions_after(before), done, LoopAction::RestoreTerminal);
        lemma_occurrences_concat(actions_after(before), done, LoopAction::JoinWorker);
        lemma_occurrences_concat(actions_after(before), done, LoopAction::Fail(error));
        lemma_reaction_counts(state, events.last(), LoopAction::RestoreTerminal);
        lemma_reaction_counts(state, events.last(), LoopAction::JoinWorker);
        lemma_reaction_counts(state, events.last(), LoopAction::Fail(error));
        let reached = while_running(events).len() as int;
        if reached < before.len() {
            assert(before[reached] == events[reached]);
        }
    }
}

/// Each of the four actions of the start occurs in it once, and no other
/// action does.
proof fn lemma_opening_counts(action: LoopAction)
    ensures
        occurrences(opening(), action) == if opening().contains(action) {
            1nat
        } else {
            0nat
        },
        opening().contains(action) <==> action == LoopAction::SpawnWorker || action
            == LoopAction::InitTerminal || action == LoopAction::Draw || action
            == LoopAction::Wait,
{
    let first = Seq::empty().push(LoopAction::SpawnWorker);
    let second = first.push(LoopAction::InitTerminal);
    let third = second.push(LoopAction::Draw);
    assert(opening() =~= third.push(LoopAction::Wait));
    lemma_occurrences_push(Seq::empty(), LoopAction::SpawnWorker, action);
    lemma_occurrences_push(first, LoopAction::InitTerminal, action);
    lemma_occurrences_push(second, LoopAction::Draw, action);
    lemma_occurrences_push(third, LoopAction::Wait, action);
    assert(opening()[0] == LoopAction::SpawnWorker);
    assert(opening()[1] == LoopAction::InitTerminal);
    assert(opening()[2] == LoopAction::Draw);
    assert(opening()[3] == LoopAction::Wait);
}

} // verus!
