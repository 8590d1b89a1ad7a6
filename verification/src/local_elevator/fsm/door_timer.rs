//! The one-shot timer that closes the door.
use vstd::prelude::*;

verus! {

/// What the state machine asks of the door timer.
#[derive(Clone, Copy, Debug, PartialEq, Eq, Structural)]
pub enum TimerCommand {
    Start,
    Cancel,
}

/// Mathematical model of a [`Timer`]. Instants and durations are counted in
/// milliseconds.
pub struct TimerView {
    pub start_time: nat,
    pub timeout_time: nat,
    pub enabled: bool,
}

impl TimerView {
    /// The timer is enabled and more than its duration has passed since it
    /// was started.
    pub open spec fn expired_at(self, now: nat) -> bool {
        self.enabled && now - self.start_time > self.timeout_time
    }

    /// The timer after `command` was received at the instant `now`.
    pub open spec fn after_command(self, command: TimerCommand, now: nat) -> TimerView {
        match command {
            TimerCommand::Start => TimerView { start_time: now, enabled: true, ..self },
            TimerCommand::Cancel => TimerView { enabled: false, ..self },
        }
    }

    /// The timer after it was asked at the instant `now` whether it has
    /// expired: saying yes disables it.
    pub open spec fn after_check(self, now: nat) -> TimerView {
        if self.expired_at(now) {
            TimerView { enabled: false, ..self }
        } else {
            self
        }
    }
}

/// A one-shot timer of a fixed duration. It does not read a clock: whoever
/// drives it passes the current instant, in milliseconds since an epoch of
/// their choice.
#[derive(Clone, Copy, Debug)]
pub struct Timer {
    start_time: u64,
    timeout_sec: u64,
    enabled: bool,
}

impl View for Timer {
    type V = TimerView;

    closed spec fn view(&self) -> TimerView {
        TimerView {
            start_time: self.start_time as nat,
            timeout_time: (self.timeout_sec * 1000) as nat,
            enabled: self.enabled,
        }
    }
}

impl Timer {
    /// A disabled timer of `timeout_sec` seconds, created at the instant `now`.
    pub fn new(timeout_sec: u64, now: u64) -> (timer: Timer)
        ensures
            timer@ == (TimerView {
                start_time: now as nat,
                timeout_time: (timeout_sec * 1000) as nat,
                enabled: false,
            }),
    {
        Timer { start_time: now, timeout_sec, enabled: false }
    }

    /// Carries out `command`, received at the instant `now`: `Start` enables
    /// the timer and counts from `now`, `Cancel` disables it.
    pub fn on_command(&mut self, command: TimerCommand, now: u64)
        ensures
            final(self)@ == old(self)@.after_command(command, now as nat),
    {
        match command {
            TimerCommand::Start => self.start(now),
            TimerCommand::Cancel => self.cancel(),
        }
    }

    fn start(&mut self, now: u64)
        ensures
            final(self)@ == old(self)@.after_command(TimerCommand::Start, now as nat),
    {
        self.start_time = now;
        self.enabled = true;
    }

    fn cancel(&mut self)
        ensures
            final(self)@ == old(self)@.after_command(TimerCommand::Cancel, 0),
    {
        self.enabled = false;
    }

    /// Tells, at the instant `now`, whether the timer has run out. It says
    /// yes once per start: the timer is disabled by it.
    pub fn did_expire(&mut self, now: u64) -> (expired: bool)
        ensures
            expired == old(self)@.expired_at(now as nat),
            final(self)@ == old(self)@.after_check(now as nat),
    {
        let elapsed: u64 = if now >= self.start_time { now - self.start_time } else { 0 };
        if self.enabled && (elapsed as u128) > (self.timeout_sec as u128) * 1000 {
            self.enabled = false;
            true
        } else {
            false
        }
    }
}

/// Restarting postpones the timeout: a timer started at `first` and started
/// again `delay` later, before it ran out, expires exactly when a timer
/// started at `first + delay` does, which is `delay` later than it would
/// have without the second start.
pub proof fn lemma_restart_postpones_timeout(timer: TimerView, first: nat, delay: nat, now: nat)
    requires
        delay <= timer.timeout_time,
    ensures
        ({
            let once = timer.after_command(TimerCommand::Start, first);
            let twice = once.after_check(first + delay).after_command(
                TimerCommand::Start,
                first + delay,
            );
            &&& !once.expired_at(first + delay)
            &&& twice.expired_at(now) == (now > first + delay + timer.timeout_time)
            &&& once.expired_at(now) == (now > first + timer.timeout_time)
        }),
{
}

/// The timer fires at most once per start: right after it said that it has
/// expired, it is disabled and says no at every later instant.
pub proof fn lemma_fires_once(timer: TimerView, now: nat, later: nat)
    requires
        timer.expired_at(now),
    ensures
        !timer.after_check(now).expired_at(later),
{
}

/// A cancelled timer does not fire.
pub proof fn lemma_cancelled_is_silent(timer: TimerView, at: nat, now: nat)
    ensures
        !timer.after_command(TimerCommand::Cancel, at).expired_at(now),
{
}

} // verus!
