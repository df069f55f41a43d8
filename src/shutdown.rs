//! The shutdown scheduler: at most one countdown to a daily time of day,
//! replaced by each new time and cancelled by `STOP`.
use crate::clock::{clock_of, parse_clock, seconds_since_midnight};
use crate::text::text_eq;
use vstd::prelude::*;

verus! {

pub const SECONDS_PER_DAY: u64 = 86400;

/// How often a countdown looks at the clock and at its cancellation signal.
pub const POLL_MILLIS: u64 = 500;

/// A time of day to the minute.
#[derive(Clone, Copy, Debug, PartialEq, Eq, Structural)]
pub struct ClockTime {
    pub hour: u32,
    pub minute: u32,
}

impl ClockTime {
    pub open spec fn wf(self) -> bool {
        self.hour < 24 && self.minute < 60
    }

    /// Seconds from midnight to this time.
    pub open spec fn seconds(self) -> int {
        self.hour * 3600 + self.minute * 60
    }

    pub fn new(hour: u32, minute: u32) -> (r: Option<ClockTime>)
        ensures
            r == if hour < 24 && minute < 60 {
                Some(ClockTime { hour, minute })
            } else {
                None
            },
    {
        if hour < 24 && minute < 60 {
            Some(ClockTime { hour, minute })
        } else {
            None
        }
    }
}

/// Seconds from `now` (seconds since midnight) to the next occurrence of
/// `target`: later today, or tomorrow where the time has passed.
pub open spec fn spec_seconds_until(target: ClockTime, now: int) -> int {
    if target.seconds() >= now {
        target.seconds() - now
    } else {
        target.seconds() + SECONDS_PER_DAY - now
    }
}

pub fn seconds_until(target: ClockTime, now: u32) -> (r: u64)
    requires
        target.wf(),
        now < SECONDS_PER_DAY,
    ensures
        r == spec_seconds_until(target, now as int),
        r < SECONDS_PER_DAY,
        (r == 0) == (target.seconds() == now),
{
    let t: u64 = target.hour as u64 * 3600 + target.minute as u64 * 60;
    if t >= now as u64 {
        t - now as u64
    } else {
        t + SECONDS_PER_DAY - now as u64
    }
}

/// A command on the scheduler's control channel.
#[derive(Clone, Copy, Debug, PartialEq, Eq, Structural)]
pub enum ShutdownCommand {
    At(ClockTime),
    Stop,
    Invalid,
}

pub open spec fn spec_command(s: Seq<char>) -> ShutdownCommand {
    if s == "STOP"@ {
        ShutdownCommand::Stop
    } else {
        match clock_of(s) {
            Some((h, m)) => ShutdownCommand::At(ClockTime { hour: h, minute: m }),
            None => ShutdownCommand::Invalid,
        }
    }
}

/// Reads a command: `STOP`, or a time of day written `HH:MM`.
pub fn parse_command(s: &str) -> (r: ShutdownCommand)
    ensures
        r == spec_command(s@),
        r matches ShutdownCommand::At(t) ==> t.wf(),
{
    if text_eq(s, "STOP") {
        ShutdownCommand::Stop
    } else {
        match parse_clock(s) {
            Some((h, m)) => ShutdownCommand::At(ClockTime { hour: h, minute: m }),
            None => ShutdownCommand::Invalid,
        }
    }
}

/// What the control loop does on a command: signal the running countdown to
/// stop, and start a new one.
#[derive(Clone, Copy, Debug, PartialEq, Eq, Structural)]
pub struct SchedulerAction {
    pub cancel_running: bool,
    pub start: Option<ClockTime>,
}

pub open spec fn spec_submit(armed: Option<ClockTime>, cmd: ShutdownCommand) -> (
    Option<ClockTime>,
    SchedulerAction,
) {
    match cmd {
        ShutdownCommand::At(t) => (
            Some(t),
            SchedulerAction { cancel_running: armed is Some, start: Some(t) },
        ),
        ShutdownCommand::Stop => (
            None,
            SchedulerAction { cancel_running: armed is Some, start: None },
        ),
        ShutdownCommand::Invalid => (armed, SchedulerAction { cancel_running: false, start: None }),
    }
}

/// The control loop's state: the time of the one running countdown, if any.
pub struct ControllerChannel {
    pub armed: Option<ClockTime>,
}

impl ControllerChannel {
    pub fn new() -> (r: ControllerChannel)
        ensures
            r.armed is None,
    {
        ControllerChannel { armed: None }
    }

    /// Whether a shutdown is scheduled.
    pub fn is_active(&self) -> (r: bool)
        ensures
            r == self.armed is Some,
    {
        self.armed.is_some()
    }

    /// Handles one command. A time supersedes the running countdown with a
    /// new one; `STOP` cancels it and starts none; anything else is ignored.
    pub fn submit(&mut self, cmd: ShutdownCommand) -> (r: SchedulerAction)
        ensures
            (final(self).armed, r) == spec_submit(old(self).armed, cmd),
    {
        let running = self.armed.is_some();
        match cmd {
            ShutdownCommand::At(t) => {
                self.armed = Some(t);
                SchedulerAction { cancel_running: running, start: Some(t) }
            },
            ShutdownCommand::Stop => {
                self.armed = None;
                SchedulerAction { cancel_running: running, start: None }
            },
            ShutdownCommand::Invalid => SchedulerAction { cancel_running: false, start: None },
        }
    }
}

/// What a countdown does on one poll.
#[derive(Clone, Copy, Debug, PartialEq, Eq, Structural)]
pub enum CountdownStep {
    /// The time has come: end the process.
    Terminate,
    /// The countdown was cancelled: end the countdown alone.
    Cancelled,
    /// Poll again after `POLL_MILLIS`.
    Wait,
}

pub open spec fn spec_countdown_step(target: ClockTime, now: int, cancelled: bool) -> CountdownStep {
    if cancelled {
        CountdownStep::Cancelled
    } else if spec_seconds_until(target, now) == 0 {
        CountdownStep::Terminate
    } else {
        CountdownStep::Wait
    }
}

/// One poll at `now` (seconds since midnight). A cancelled countdown never
/// terminates, even when its time has come.
pub fn countdown_step(target: ClockTime, now: u32, cancelled: bool) -> (r: CountdownStep)
    requires
        target.wf(),
        now < SECONDS_PER_DAY,
    ensures
        r == spec_countdown_step(target, now as int, cancelled),
{
    if cancelled {
        CountdownStep::Cancelled
    } else if seconds_until(target, now) == 0 {
        CountdownStep::Terminate
    } else {
        CountdownStep::Wait
    }
}

/// One poll at the present time of day: the step that `countdown_step`
/// takes at some time of day, the one the clock gave.
pub fn countdown_tick(target: ClockTime, cancelled: bool) -> (r: CountdownStep)
    requires
        target.wf(),
    ensures
        cancelled ==> r == CountdownStep::Cancelled,
        !cancelled ==> r != CountdownStep::Cancelled,
        exists|now: int| 0 <= now < SECONDS_PER_DAY && r == spec_countdown_step(target, now, cancelled),
{
    let now = seconds_since_midnight();
    let r = countdown_step(target, now, cancelled);
    assert(r == spec_countdown_step(target, now as int, cancelled));
    r
}

/// A time followed by `STOP` leaves nothing to fire: the stop signals the
/// countdown that the time started, arms none, and a signalled countdown
/// ends without terminating.
pub proof fn lemma_stop_cancels_countdown(armed: Option<ClockTime>, t: ClockTime, now: int)
    ensures
        ({
            let (armed1, first) = spec_submit(armed, ShutdownCommand::At(t));
            let (armed2, second) = spec_submit(armed1, ShutdownCommand::Stop);
            &&& first.start == Some(t)
            &&& second.cancel_running
            &&& second.start is None
            &&& armed2 is None
            &&& spec_countdown_step(t, now, true) == CountdownStep::Cancelled
        }),
{
}

/// A newer time supersedes an older one: the second command signals the
/// first countdown and only the newer time stays armed.
pub proof fn lemma_newer_time_supersedes(armed: Option<ClockTime>, t1: ClockTime, t2: ClockTime)
    ensures
        ({
            let (armed1, _) = spec_submit(armed, ShutdownCommand::At(t1));
            let (armed2, second) = spec_submit(armed1, ShutdownCommand::At(t2));
            &&& second.cancel_running
            &&& second.start == Some(t2)
            &&& armed2 == Some(t2)
        }),
{
}

/// A time of day that has passed today is taken as tomorrow's: the wait is
/// never negative, is zero only at the time itself, and is less than a day.
pub proof fn lemma_next_occurrence(target: ClockTime, now: int)
    requires
        target.wf(),
        0 <= now < SECONDS_PER_DAY,
    ensures
        0 <= spec_seconds_until(target, now) < SECONDS_PER_DAY,
        (spec_seconds_until(target, now) == 0) == (target.seconds() == now),
        target.seconds() < now ==> spec_seconds_until(target, now) == target.seconds()
            + SECONDS_PER_DAY - now,
{
}

} // verus!
