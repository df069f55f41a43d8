//! The "run at startup" task of the system's task scheduler: the arguments
//! that create or delete it, and what the scheduler's exit status means.
use vstd::prelude::*;
use vstd::string::*;

verus! {

/// The scheduled task's name.
pub const TASK_NAME: &'static str = "SmartIdler";

/// Why the scheduler did not do as asked.
#[derive(Clone, Copy, Debug, PartialEq, Eq, Structural)]
pub enum TaskError {
    /// The scheduler ended with this non-zero status.
    Status(i32),
    /// The scheduler ended without a status.
    NoStatus,
}

pub open spec fn texts(v: Seq<String>) -> Seq<Seq<char>> {
    v.map_values(|s: String| s@)
}

/// The arguments that delete the task.
pub fn delete_task_args() -> (r: Vec<String>)
    ensures
        texts(r@) == seq!["/delete"@, "/tn"@, "SmartIdler"@, "/f"@],
{
    let mut args: Vec<String> = Vec::new();
    args.push(String::from_str("/delete"));
    args.push(String::from_str("/tn"));
    args.push(String::from_str(TASK_NAME));
    args.push(String::from_str("/f"));
    assert(texts(args@) =~= seq!["/delete"@, "/tn"@, "SmartIdler"@, "/f"@]);
    args
}

/// The arguments that create the task: run `exe` at system start, with the
/// highest rights, replacing any task of that name.
pub fn create_task_args(exe: &str) -> (r: Vec<String>)
    ensures
        texts(r@) == seq![
            "/create"@,
            "/tn"@,
            "SmartIdler"@,
            "/sc"@,
            "ONSTART"@,
            "/tr"@,
            exe@,
            "/f"@,
            "/RL"@,
            "HIGHEST"@,
        ],
{
    let mut args: Vec<String> = Vec::new();
    args.push(String::from_str("/create"));
    args.push(String::from_str("/tn"));
    args.push(String::from_str(TASK_NAME));
    args.push(String::from_str("/sc"));
    args.push(String::from_str("ONSTART"));
    args.push(String::from_str("/tr"));
    args.push(String::from_str(exe));
    args.push(String::from_str("/f"));
    args.push(String::from_str("/RL"));
    args.push(String::from_str("HIGHEST"));
    assert(texts(args@) =~= seq![
        "/create"@,
        "/tn"@,
        "SmartIdler"@,
        "/sc"@,
        "ONSTART"@,
        "/tr"@,
        exe@,
        "/f"@,
        "/RL"@,
        "HIGHEST"@,
    ]);
    args
}

/// A deletion succeeded only on status zero.
pub fn delete_outcome(status: Option<i32>) -> (r: Result<(), TaskError>)
    ensures
        r == match status {
            Some(0) => Ok(()),
            Some(c) => Err(TaskError::Status(c)),
            None => Err(TaskError::NoStatus),
        },
{
    match status {
        Some(0) => Ok(()),
        Some(c) => Err(TaskError::Status(c)),
        None => Err(TaskError::NoStatus),
    }
}

/// A creation failed only on a non-zero status; an end by signal counts as
/// done.
pub fn create_outcome(status: Option<i32>) -> (r: Result<(), TaskError>)
    ensures
        r == match status {
            Some(c) => if c == 0 {
                Ok(())
            } else {
                Err(TaskError::Status(c))
            },
            None => Ok(()),
        },
{
    match status {
        Some(0) => Ok(()),
        Some(c) => Err(TaskError::Status(c)),
        None => Ok(()),
    }
}

} // verus!
