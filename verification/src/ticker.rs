//! The main loop's decisions: the two loop states, the bounded input
//! wait, and the tick boundary. The unverified front end performs the
//! waiting and drawing; every decision is made here.

use vstd::prelude::*;

verus! {

/// The fixed tick interval, in milliseconds.
pub const TICK_MS: u64 = 1000;

/// The main loop has exactly two states; `Stopped` is terminal.
#[derive(Clone, Copy, PartialEq, Eq, Structural, Debug)]
pub enum LoopState {
    Running,
    Stopped,
}

/// What one bounded input wait observed: a key press carrying a
/// character, some other terminal event, or nothing within the budget.
#[derive(Clone, Copy, PartialEq, Eq, Structural, Debug)]
pub enum LoopEvent {
    KeyChar(char),
    OtherEvent,
    NoEvent,
}

/// The loop's only transition: `Running` becomes `Stopped` exactly on
/// the quit key 'q'; `Stopped` stays `Stopped`; nothing else changes
/// the state.
pub open spec fn spec_next_state(state: LoopState, event: LoopEvent) -> LoopState {
    if state == LoopState::Stopped {
        LoopState::Stopped
    } else if event == LoopEvent::KeyChar('q') {
        LoopState::Stopped
    } else {
        LoopState::Running
    }
}

/// Applies one observed event to the loop state.
pub fn next_state(state: LoopState, event: LoopEvent) -> (r: LoopState)
    ensures
        r == spec_next_state(state, event),
{
    match state {
        LoopState::Stopped => LoopState::Stopped,
        LoopState::Running => match event {
            LoopEvent::KeyChar(c) => if c == 'q' {
                LoopState::Stopped
            } else {
                LoopState::Running
            },
            _ => LoopState::Running,
        },
    }
}

/// How long the input wait may block: the tick interval less the time
/// already elapsed since the last tick boundary, clamped at zero.
pub open spec fn spec_wait_budget(elapsed_ms: u64) -> int {
    if elapsed_ms >= TICK_MS {
        0
    } else {
        TICK_MS - elapsed_ms
    }
}

/// Computes the bounded wait for one loop iteration.
pub fn wait_budget(elapsed_ms: u64) -> (r: u64)
    ensures
        r == spec_wait_budget(elapsed_ms),
        r <= TICK_MS,
{
    if elapsed_ms >= TICK_MS {
        0
    } else {
        TICK_MS - elapsed_ms
    }
}

/// The tick boundary moves to `now` once a full interval has elapsed,
/// and stays put otherwise.
pub open spec fn spec_advance_tick(last_tick_ms: u64, now_ms: u64) -> int {
    if now_ms - last_tick_ms >= TICK_MS {
        now_ms as int
    } else {
        last_tick_ms as int
    }
}

/// Advances the tick boundary after one loop iteration.
pub fn advance_tick(last_tick_ms: u64, now_ms: u64) -> (r: u64)
    requires
        last_tick_ms <= now_ms,
    ensures
        r == spec_advance_tick(last_tick_ms, now_ms),
{
    if now_ms - last_tick_ms >= TICK_MS {
        now_ms
    } else {
        last_tick_ms
    }
}

/// Quitting is prompt and certain: the quit key always moves a running
/// loop to `Stopped`, no other event does, a stopped loop never
/// resumes, and the bounded wait before the next look at the input
/// never exceeds one tick interval.
pub proof fn lemma_quit_stops(event: LoopEvent, elapsed_ms: u64)
    ensures
        spec_next_state(LoopState::Running, LoopEvent::KeyChar('q')) == LoopState::Stopped,
        spec_next_state(LoopState::Running, event) == LoopState::Stopped <==> event
            == LoopEvent::KeyChar('q'),
        spec_next_state(LoopState::Stopped, event) == LoopState::Stopped,
        0 <= spec_wait_budget(elapsed_ms) <= TICK_MS,
{
}

} // verus!
