use minute_clock::bridge::{Wake, WakeError};
use minute_clock::coordinator::{start, step, LoopAction, LoopEvent, LoopState};
use minute_clock::schedule::ArmError;

#[test]
fn loop_draws_before_it_first_waits() {
    let (state, actions) = start();
    assert_eq!(state, LoopState::Running);
    assert_eq!(
        actions,
        vec![
            LoopAction::SpawnWorker,
            LoopAction::InitTerminal,
            LoopAction::Draw,
            LoopAction::Wait
        ]
    );
    let first_draw = actions.iter().position(|a| *a == LoopAction::Draw);
    let first_wait = actions.iter().position(|a| *a == LoopAction::Wait);
    assert_eq!(first_draw, Some(2));
    assert_eq!(first_wait, Some(3));
    let draws = actions.iter().filter(|a| **a == LoopAction::Draw).count();
    assert_eq!(draws, 1);
}

#[test]
fn loop_starts_one_worker_and_takes_the_terminal_once() {
    let (_, actions) = start();
    let count = |wanted: LoopAction| actions.iter().filter(|a| **a == wanted).count();
    assert_eq!(count(LoopAction::SpawnWorker), 1);
    assert_eq!(count(LoopAction::InitTerminal), 1);
    assert_eq!(actions[0], LoopAction::SpawnWorker);
    assert_eq!(actions[1], LoopAction::InitTerminal);
}

#[test]
fn tick_is_drawn_and_then_waited_on_again() {
    assert_eq!(
        step(LoopState::Running, LoopEvent::Woke(Ok(Wake::Tick))),
        (
            LoopState::Running,
            vec![LoopAction::Draw, LoopAction::Wait]
        )
    );
}

#[test]
fn swallowed_wake_is_not_drawn() {
    assert_eq!(
        step(LoopState::Running, LoopEvent::Woke(Ok(Wake::Resynced))),
        (LoopState::Running, vec![LoopAction::Wait])
    );
}

#[test]
fn quit_restores_the_terminal_and_joins_the_worker() {
    assert_eq!(
        step(LoopState::Running, LoopEvent::Quit),
        (
            LoopState::ShuttingDown,
            vec![LoopAction::RestoreTerminal, LoopAction::JoinWorker]
        )
    );
}

#[test]
fn failed_wait_restores_the_terminal_and_fails() {
    let errors = [
        WakeError::Poll { errno: 5 },
        WakeError::Read { errno: 9 },
        WakeError::Truncated { got: 3 },
        WakeError::Oversized { got: 12 },
        WakeError::Rearm(ArmError::ClockUnreadable),
        WakeError::Rearm(ArmError::Rejected { errno: 22 }),
    ];
    for error in errors {
        assert_eq!(
            step(LoopState::Running, LoopEvent::Woke(Err(error))),
            (
                LoopState::ShuttingDown,
                vec![LoopAction::RestoreTerminal, LoopAction::Fail(error)]
            )
        );
    }
}

#[test]
fn loop_that_is_shutting_down_does_nothing_more() {
    let events = [
        LoopEvent::Woke(Ok(Wake::Tick)),
        LoopEvent::Woke(Ok(Wake::Resynced)),
        LoopEvent::Woke(Err(WakeError::Read { errno: 9 })),
        LoopEvent::Quit,
    ];
    for event in events {
        assert_eq!(
            step(LoopState::ShuttingDown, event),
            (LoopState::ShuttingDown, vec![])
        );
    }
}

#[test]
fn one_draw_per_tick_until_the_loop_is_stopped() {
    let events = [
        LoopEvent::Woke(Ok(Wake::Tick)),
        LoopEvent::Woke(Ok(Wake::Resynced)),
        LoopEvent::Woke(Ok(Wake::Tick)),
        LoopEvent::Woke(Err(WakeError::Truncated { got: 1 })),
        LoopEvent::Woke(Ok(Wake::Tick)),
        LoopEvent::Quit,
    ];
    let (mut state, mut done) = start();
    for event in events {
        let (next, actions) = step(state, event);
        state = next;
        done.extend(actions);
    }
    let count = |wanted: LoopAction| done.iter().filter(|a| **a == wanted).count();
    assert_eq!(count(LoopAction::Draw), 3);
    assert_eq!(count(LoopAction::Wait), 4);
    assert_eq!(count(LoopAction::SpawnWorker), 1);
    assert_eq!(count(LoopAction::InitTerminal), 1);
    assert_eq!(count(LoopAction::RestoreTerminal), 1);
    assert_eq!(count(LoopAction::JoinWorker), 0);
    assert_eq!(count(LoopAction::Fail(WakeError::Truncated { got: 1 })), 1);
    assert_eq!(state, LoopState::ShuttingDown);
    assert_eq!(done[2], LoopAction::Draw);
    assert_eq!(done.last(), Some(&LoopAction::Fail(WakeError::Truncated { got: 1 })));
}

#[test]
fn quit_joins_the_worker_once_however_much_follows() {
    let events = [
        LoopEvent::Woke(Ok(Wake::Tick)),
        LoopEvent::Quit,
        LoopEvent::Quit,
        LoopEvent::Woke(Ok(Wake::Tick)),
        LoopEvent::Woke(Err(WakeError::Read { errno: 9 })),
    ];
    let (mut state, mut done) = start();
    for event in events {
        let (next, actions) = step(state, event);
        state = next;
        done.extend(actions);
    }
    let count = |wanted: LoopAction| done.iter().filter(|a| **a == wanted).count();
    assert_eq!(count(LoopAction::Draw), 2);
    assert_eq!(count(LoopAction::RestoreTerminal), 1);
    assert_eq!(count(LoopAction::JoinWorker), 1);
    assert_eq!(count(LoopAction::Fail(WakeError::Read { errno: 9 })), 0);
    assert_eq!(done.last(), Some(&LoopAction::JoinWorker));
    assert_eq!(state, LoopState::ShuttingDown);
}
