use idler_utils::shutdown::{
    countdown_step, countdown_tick, parse_command, seconds_until, ClockTime, ControllerChannel,
    CountdownStep, SchedulerAction, ShutdownCommand,
};

fn at(hour: u32, minute: u32) -> ClockTime {
    ClockTime::new(hour, minute).expect("a valid time")
}

#[test]
fn clock_time_bounds() {
    assert_eq!(ClockTime::new(23, 59), Some(ClockTime { hour: 23, minute: 59 }));
    assert_eq!(ClockTime::new(24, 0), None);
    assert_eq!(ClockTime::new(0, 60), None);
}

#[test]
fn commands_parse() {
    assert_eq!(parse_command("14:00"), ShutdownCommand::At(at(14, 0)));
    assert_eq!(parse_command("09:05"), ShutdownCommand::At(at(9, 5)));
    assert_eq!(parse_command("STOP"), ShutdownCommand::Stop);
    assert_eq!(parse_command("25:00"), ShutdownCommand::Invalid);
    assert_eq!(parse_command("later"), ShutdownCommand::Invalid);
    assert_eq!(parse_command("stop"), ShutdownCommand::Invalid);
}

#[test]
fn past_time_waits_until_tomorrow() {
    let nine_thirty = 9 * 3600 + 30 * 60;
    assert_eq!(seconds_until(at(9, 0), nine_thirty), 23 * 3600 + 30 * 60);
}

#[test]
fn later_time_waits_until_today() {
    assert_eq!(seconds_until(at(14, 0), 13 * 3600), 3600);
    assert_eq!(seconds_until(at(14, 0), 14 * 3600), 0);
    assert_eq!(seconds_until(at(0, 0), 86399), 1);
}

#[test]
fn stop_after_time_cancels() {
    let mut c = ControllerChannel::new();
    let first = c.submit(parse_command("14:00"));
    assert_eq!(first, SchedulerAction { cancel_running: false, start: Some(at(14, 0)) });
    assert!(c.is_active());
    let second = c.submit(parse_command("STOP"));
    assert_eq!(second, SchedulerAction { cancel_running: true, start: None });
    assert!(!c.is_active());
    assert_eq!(countdown_step(at(14, 0), 14 * 3600, true), CountdownStep::Cancelled);
    assert_eq!(countdown_step(at(14, 0), 13 * 3600, true), CountdownStep::Cancelled);
}

#[test]
fn newer_time_supersedes() {
    let mut c = ControllerChannel::new();
    c.submit(ShutdownCommand::At(at(14, 0)));
    let second = c.submit(ShutdownCommand::At(at(15, 30)));
    assert_eq!(second, SchedulerAction { cancel_running: true, start: Some(at(15, 30)) });
    assert_eq!(c.armed, Some(at(15, 30)));
}

#[test]
fn invalid_command_is_ignored() {
    let mut c = ControllerChannel::new();
    c.submit(ShutdownCommand::At(at(14, 0)));
    let r = c.submit(parse_command("nonsense"));
    assert_eq!(r, SchedulerAction { cancel_running: false, start: None });
    assert_eq!(c.armed, Some(at(14, 0)));
}

#[test]
fn countdown_fires_at_its_time() {
    assert_eq!(countdown_step(at(14, 0), 14 * 3600, false), CountdownStep::Terminate);
    assert_eq!(countdown_step(at(14, 0), 14 * 3600 - 1, false), CountdownStep::Wait);
    assert_eq!(countdown_step(at(14, 0), 14 * 3600 + 1, false), CountdownStep::Wait);
}

#[test]
fn cancelled_tick_never_terminates() {
    assert_eq!(countdown_tick(at(0, 0), true), CountdownStep::Cancelled);
}
