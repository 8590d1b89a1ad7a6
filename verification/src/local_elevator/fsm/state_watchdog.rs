//! The watchdog that turns "too long in this state" into an event for the
//! state machine.
use crate::local_elevator::fsm::elevatorfsm::State;
use crate::util::constants::{MOTOR_TIMEOUT_DURATION_SEC, OBSTRUCTED_TIME_BEFORE_REASSIGN_SEC};
use vstd::prelude::*;

verus! {

/// Milliseconds that an elevator may stay in `state` before the watchdog
/// fires, if the state is watched at all: a moving or initializing elevator
/// has to reach a floor in time, an obstruction has to end in time.
pub open spec fn deadline_of(state: State) -> Option<u64> {
    match state {
        State::Obstructed => Some((OBSTRUCTED_TIME_BEFORE_REASSIGN_SEC * 1000) as u64),
        State::Moving | State::Initializing => Some((MOTOR_TIMEOUT_DURATION_SEC * 1000) as u64),
        _ => None,
    }
}

/// Mathematical model of a [`StateWatchdog`]. Instants and durations are
/// counted in milliseconds.
pub struct StateWatchdogView {
    pub when_state_updated: u64,
    pub timeout_duration: Option<u64>,
}

impl StateWatchdogView {
    /// The watchdog of an elevator switched on at `now`: it watches the
    /// initializing elevator.
    pub open spec fn initial(now: u64) -> StateWatchdogView {
        StateWatchdogView {
            when_state_updated: now,
            timeout_duration: deadline_of(State::Initializing),
        }
    }

    /// The watchdog after the state machine reported `state` at `now`.
    pub open spec fn after_state_update(self, state: State, now: u64) -> StateWatchdogView {
        StateWatchdogView { when_state_updated: now, timeout_duration: deadline_of(state) }
    }

    /// The state is watched and has lasted longer than its deadline.
    pub open spec fn expired_at(self, now: u64) -> bool {
        self.timeout_duration matches Some(timeout) && now - self.when_state_updated > timeout
    }

    /// The watchdog after it was asked at `now` whether the state has lasted
    /// too long: saying yes ends the watch.
    pub open spec fn after_check(self, now: u64) -> StateWatchdogView {
        if self.expired_at(now) {
            StateWatchdogView { timeout_duration: None, ..self }
        } else {
            self
        }
    }
}

/// Milliseconds that an elevator may stay in `state` before the watchdog
/// fires, if the state is watched at all.
pub fn timeout_for(state: State) -> (timeout: Option<u64>)
    ensures
        timeout == deadline_of(state),
{
    match state {
        State::Obstructed => Some(OBSTRUCTED_TIME_BEFORE_REASSIGN_SEC * 1000),
        State::Moving | State::Initializing => Some(MOTOR_TIMEOUT_DURATION_SEC * 1000),
        _ => None,
    }
}

/// Watches how long the elevator stays in a state. It does not read a
/// clock: whoever drives it passes the current instant, in milliseconds
/// since an epoch of their choice.
#[derive(Clone, Copy, Debug)]
pub struct StateWatchdog {
    when_state_updated: u64,
    timeout_duration: Option<u64>,
}

impl View for StateWatchdog {
    type V = StateWatchdogView;

    closed spec fn view(&self) -> StateWatchdogView {
        StateWatchdogView {
            when_state_updated: self.when_state_updated,
            timeout_duration: self.timeout_duration,
        }
    }
}

impl StateWatchdog {
    /// The watchdog of an elevator switched on at `now`.
    pub fn new(now: u64) -> (watchdog: StateWatchdog)
        ensures
            watchdog@ == StateWatchdogView::initial(now),
    {
        StateWatchdog { when_state_updated: now, timeout_duration: timeout_for(State::Initializing) }
    }

    /// Takes note that the state machine reported `state` at `now`: the
    /// clock starts anew, with the deadline of `state`.
    pub fn on_state_update(&mut self, state: State, now: u64)
        ensures
            final(self)@ == old(self)@.after_state_update(state, now),
    {
        self.when_state_updated = now;
        self.timeout_duration = timeout_for(state);
    }

    /// Tells, at `now`, whether the state has lasted longer than its
    /// deadline. It says yes once per report of the state machine.
    pub fn did_expire(&mut self, now: u64) -> (expired: bool)
        ensures
            expired == old(self)@.expired_at(now),
            final(self)@ == old(self)@.after_check(now),
    {
        match self.timeout_duration {
            Some(timeout) => {
                if now >= self.when_state_updated && now - self.when_state_updated > timeout {
                    self.timeout_duration = None;
                    true
                } else {
                    false
                }
            },
            None => false,
        }
    }
}

/// The watchdog fires at most once per report of the state machine: after
/// it has fired, it stays silent until the next report.
pub proof fn lemma_watchdog_fires_once(watchdog: StateWatchdogView, now: u64, later: u64)
    requires
        watchdog.expired_at(now),
    ensures
        !watchdog.after_check(now).expired_at(later),
{
}

/// The watchdog never fires for a state that is not watched.
pub proof fn lemma_unwatched_state_is_silent(
    watchdog: StateWatchdogView,
    state: State,
    at: u64,
    now: u64,
)
    requires
        state != State::Moving,
        state != State::Initializing,
        state != State::Obstructed,
    ensures
        !watchdog.after_state_update(state, at).expired_at(now),
{
}

} // verus!
