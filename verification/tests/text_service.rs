use azookey_windows::tsf::text_service::{UpdatePosState, LAYOUT_CHANGE_SUPPRESSION};

const WINDOW: u64 = LAYOUT_CHANGE_SUPPRESSION;

/// Some time on a clock that does not go back.
const NOW: u64 = 1_000_000;

#[test]
fn beginning_an_update_arms_the_suppression_window() {
    let now = NOW;
    let mut state = UpdatePosState::Idle;

    assert!(state.try_begin_update(now));
    assert_eq!(
        state,
        UpdatePosState::Updating {
            suppress_layout_until: now + WINDOW
        }
    );
}

#[test]
fn a_reentrant_begin_is_refused_and_keeps_the_deadline() {
    let now = NOW;
    let mut state = UpdatePosState::Idle;
    assert!(state.try_begin_update(now));

    assert!(!state.try_begin_update(now + 50));
    assert_eq!(
        state,
        UpdatePosState::Updating {
            suppress_layout_until: now + WINDOW
        }
    );
}

#[test]
fn finishing_inside_the_window_keeps_suppressing_until_the_same_deadline() {
    let now = NOW;
    let mut state = UpdatePosState::Idle;
    state.try_begin_update(now);

    state.finish_update(now + 50);

    assert_eq!(
        state,
        UpdatePosState::SuppressingLayoutChange {
            until: now + WINDOW
        },
        "the deadline is the one armed at begin, not a fresh one"
    );
}

#[test]
fn finishing_exactly_on_the_deadline_still_suppresses() {
    let now = NOW;
    let mut state = UpdatePosState::Idle;
    state.try_begin_update(now);

    state.finish_update(now + WINDOW);

    assert_eq!(
        state,
        UpdatePosState::SuppressingLayoutChange {
            until: now + WINDOW
        }
    );
}

#[test]
fn finishing_past_the_deadline_goes_straight_to_idle() {
    let now = NOW;
    let mut state = UpdatePosState::Idle;
    state.try_begin_update(now);

    state.finish_update(now + WINDOW + 1);

    assert_eq!(state, UpdatePosState::Idle);
}

#[test]
fn finishing_without_an_update_in_flight_changes_nothing() {
    let now = NOW;

    let mut idle = UpdatePosState::Idle;
    idle.finish_update(now);
    assert_eq!(idle, UpdatePosState::Idle);

    let mut suppressing = UpdatePosState::SuppressingLayoutChange {
        until: now + WINDOW,
    };
    suppressing.finish_update(now);
    assert_eq!(
        suppressing,
        UpdatePosState::SuppressingLayoutChange {
            until: now + WINDOW
        }
    );
}

#[test]
fn layout_changes_are_not_skipped_when_idle() {
    let mut state = UpdatePosState::Idle;

    assert!(!state.should_skip_layout_change(NOW));
    assert_eq!(state, UpdatePosState::Idle);
}

#[test]
fn layout_changes_during_an_update_are_skipped() {
    let now = NOW;
    let mut state = UpdatePosState::Idle;
    state.try_begin_update(now);

    assert!(state.should_skip_layout_change(now + 1));
    assert_eq!(
        state,
        UpdatePosState::Updating {
            suppress_layout_until: now + WINDOW
        },
        "an in-flight update is not cleared by a layout change"
    );
}

#[test]
fn layout_changes_exactly_on_the_deadline_are_still_skipped() {
    let now = NOW;
    let mut state = UpdatePosState::SuppressingLayoutChange { until: now };

    assert!(state.should_skip_layout_change(now));
    assert_eq!(
        state,
        UpdatePosState::SuppressingLayoutChange { until: now },
        "the window has not elapsed yet, so it stays armed"
    );
}

#[test]
fn the_first_layout_change_past_the_deadline_is_honoured_and_rearms_idle() {
    let now = NOW;
    let mut state = UpdatePosState::SuppressingLayoutChange { until: now };

    assert!(!state.should_skip_layout_change(now + 1));
    assert_eq!(state, UpdatePosState::Idle);
    assert!(
        !state.should_skip_layout_change(now + 2),
        "and stays honoured afterwards"
    );
}

#[test]
fn a_full_update_cycle_swallows_only_the_echo() {
    let now = NOW;
    let mut state = UpdatePosState::default();

    assert!(state.try_begin_update(now));
    assert!(state.should_skip_layout_change(now + 1));
    state.finish_update(now + 2);
    assert!(state.should_skip_layout_change(now + 3));

    assert!(!state.should_skip_layout_change(now + WINDOW + 1));
}
