//! The single-instance guard: a lock file per role that holds the id of the
//! process that runs as that role.
//!
//! The file is read and written outside the library. The guard decides, from
//! what the file held and what the process table says of the id in it,
//! whether this process may start and must write its own id there.
use crate::process::{live_process_name, AppProcess};
use crate::text::{parse_u64, parsed_u64};
use vstd::prelude::*;
use vstd::string::*;

verus! {

/// The outcome of a check.
#[derive(Clone, Copy, Debug, PartialEq, Eq, Structural)]
pub enum CheckStatus {
    /// A live process runs as the role already: this one must not start.
    Failed,
    /// This process may start, and writes its own id to the lock file.
    Passed,
}

/// The file name of `app`'s lock, under the temporary directory.
pub fn get_file_name(app: AppProcess) -> (r: String)
    ensures
        r@ == app.spec_lock_name(),
{
    match app {
        AppProcess::SysTray => String::from_str("smart_tray.lock"),
    }
}

/// The process id that a lock file's text records, if it records one.
pub open spec fn recorded_pid(text: Seq<char>) -> Option<u32> {
    match parsed_u64(text) {
        Some(v) => if v <= u32::MAX {
            Some(v as u32)
        } else {
            None
        },
        None => None,
    }
}

pub fn parse_pid(text: &str) -> (r: Option<u32>)
    ensures
        r == recorded_pid(text@),
{
    match parse_u64(text) {
        Some(v) => if v <= u32::MAX as u64 {
            Some(v as u32)
        } else {
            None
        },
        None => None,
    }
}

pub open spec fn spec_verdict(app: AppProcess, live_name: Option<Seq<char>>) -> CheckStatus {
    match live_name {
        Some(n) => if n == app.spec_name() {
            CheckStatus::Failed
        } else {
            CheckStatus::Passed
        },
        None => CheckStatus::Passed,
    }
}

/// The guard for one role.
#[derive(Clone, Copy, Debug, PartialEq, Eq, Structural)]
pub struct SingleInstance {
    pub app: AppProcess,
}

impl SingleInstance {
    pub fn new(new_app: AppProcess) -> (r: SingleInstance)
        ensures
            r.app == new_app,
    {
        SingleInstance { app: new_app }
    }

    /// Decides on a lock whose recorded process is, by the process table,
    /// `live_name` (`None`: no live process has the id). Only a live process
    /// with the role's executable name blocks; a dead id, or one that an
    /// unrelated process took over, marks a stale lock that may be reclaimed.
    pub fn verdict(&self, live_name: Option<String>) -> (r: CheckStatus)
        ensures
            r == spec_verdict(
                self.app,
                match live_name {
                    Some(n) => Some(n@),
                    None => None,
                },
            ),
    {
        match live_name {
            Some(n) => {
                let expected = self.app.to_string();
                if n == expected {
                    CheckStatus::Failed
                } else {
                    CheckStatus::Passed
                }
            },
            None => CheckStatus::Passed,
        }
    }

    /// Checks the role's lock, given the text of the lock file (`None`: no
    /// file, or none that could be read). A missing, unreadable or garbled
    /// lock passes; a recorded id is looked up in the process table, and only
    /// a live process of the role fails the check.
    pub fn check(&self, lock_text: Option<&str>) -> (r: CheckStatus)
        ensures
            r == CheckStatus::Failed ==> (lock_text matches Some(t) && recorded_pid(t@) is Some),
            lock_text is None ==> r == CheckStatus::Passed,
            (lock_text matches Some(t) && recorded_pid(t@) is None) ==> r == CheckStatus::Passed,
    {
        match lock_text {
            None => CheckStatus::Passed,
            Some(text) => match parse_pid(text) {
                None => CheckStatus::Passed,
                Some(pid) => {
                    let live = live_process_name(pid);
                    self.verdict(live)
                },
            },
        }
    }
}

/// A lock whose id no live process holds is stale and always reclaimed.
pub proof fn lemma_dead_pid_passes(app: AppProcess)
    ensures
        spec_verdict(app, None) == CheckStatus::Passed,
{
}

/// A lock held by a live process of the role itself always blocks.
pub proof fn lemma_live_owner_blocks(app: AppProcess)
    ensures
        spec_verdict(app, Some(app.spec_name())) == CheckStatus::Failed,
{
}

} // verus!
