use idler_utils::shell::{Commands, IdlerMenuItems, Maintenance};
use idler_utils::startup::{
    create_outcome, create_task_args, delete_outcome, delete_task_args, TaskError,
};
use idler_utils::text::{parse_u64, text_eq};

#[test]
fn menu_items() {
    assert_eq!(IdlerMenuItems::Show.to_string(), "Show");
    assert_eq!(IdlerMenuItems::Quit.to_string(), "Quit");
    assert_eq!(IdlerMenuItems::from_id("Show"), Some(IdlerMenuItems::Show));
    assert_eq!(IdlerMenuItems::from_id("Quit"), Some(IdlerMenuItems::Quit));
    assert_eq!(IdlerMenuItems::from_id("Hide"), None);
}

#[test]
fn maintenance_commands() {
    assert_eq!(Commands::Start.to_string(), "Start");
    assert_eq!(Maintenance::command_args(&Commands::Stop), vec![String::from("Stop")]);
}

#[test]
fn task_arguments() {
    assert_eq!(delete_task_args(), vec!["/delete", "/tn", "SmartIdler", "/f"]);
    assert_eq!(
        create_task_args("C:\\idler.exe"),
        vec![
            "/create",
            "/tn",
            "SmartIdler",
            "/sc",
            "ONSTART",
            "/tr",
            "C:\\idler.exe",
            "/f",
            "/RL",
            "HIGHEST"
        ]
    );
}

#[test]
fn task_outcomes() {
    assert_eq!(delete_outcome(Some(0)), Ok(()));
    assert_eq!(delete_outcome(Some(1)), Err(TaskError::Status(1)));
    assert_eq!(delete_outcome(None), Err(TaskError::NoStatus));
    assert_eq!(create_outcome(Some(0)), Ok(()));
    assert_eq!(create_outcome(Some(5)), Err(TaskError::Status(5)));
    assert_eq!(create_outcome(None), Ok(()));
}

#[test]
fn decimal_text() {
    assert_eq!(parse_u64("18446744073709551615"), Some(u64::MAX));
    assert_eq!(parse_u64("18446744073709551616"), None);
    assert_eq!(parse_u64("+"), None);
    assert_eq!(parse_u64("007"), Some(7));
    assert!(text_eq("abc", "abc"));
    assert!(!text_eq("abc", "abd"));
    assert!(!text_eq("ab", "abc"));
}
