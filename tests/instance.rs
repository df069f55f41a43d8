use idler_utils::instance::{get_file_name, parse_pid, CheckStatus, SingleInstance};
use idler_utils::process::{pid_if_named, AppProcess};

#[test]
fn lock_file_name() {
    assert_eq!(get_file_name(AppProcess::SysTray), "smart_tray.lock");
    assert_eq!(AppProcess::SysTray.to_string(), "smart_tray.exe");
}

#[test]
fn pid_text() {
    assert_eq!(parse_pid("1234"), Some(1234));
    assert_eq!(parse_pid("+7"), Some(7));
    assert_eq!(parse_pid("4294967295"), Some(u32::MAX));
    assert_eq!(parse_pid("4294967296"), None);
    assert_eq!(parse_pid("12a"), None);
    assert_eq!(parse_pid(""), None);
}

#[test]
fn missing_lock_passes() {
    let guard = SingleInstance::new(AppProcess::SysTray);
    assert!(guard.check(None) == CheckStatus::Passed);
}

#[test]
fn garbled_lock_passes() {
    let guard = SingleInstance::new(AppProcess::SysTray);
    assert!(guard.check(Some("not a pid")) == CheckStatus::Passed);
}

#[test]
fn dead_pid_lock_passes() {
    let guard = SingleInstance::new(AppProcess::SysTray);
    assert!(guard.check(Some("4000000000")) == CheckStatus::Passed);
    assert!(guard.verdict(None) == CheckStatus::Passed);
}

#[test]
fn pid_of_unrelated_process_passes() {
    let guard = SingleInstance::new(AppProcess::SysTray);
    assert!(guard.check(Some("1")) == CheckStatus::Passed);
    assert!(guard.verdict(Some(String::from("bash"))) == CheckStatus::Passed);
}

#[test]
fn live_owner_fails() {
    let guard = SingleInstance::new(AppProcess::SysTray);
    assert!(guard.verdict(Some(String::from("smart_tray.exe"))) == CheckStatus::Failed);
}

#[test]
fn pid_found_by_name() {
    let app = AppProcess::SysTray;
    assert_eq!(pid_if_named(app, Some((42, String::from("smart_tray.exe")))), Some(42));
    assert_eq!(pid_if_named(app, Some((42, String::from("smart_tray")))), None);
    assert_eq!(pid_if_named(app, None), None);
}
