//! The application's processes, and what the system's process table says of
//! them, read through sysinfo.
use sysinfo::{Pid, ProcessRefreshKind, RefreshKind, System};
use vstd::prelude::*;
use vstd::string::*;

verus! {

/// A role that the application runs as.
#[derive(Clone, Copy, Debug, PartialEq, Eq, Structural)]
pub enum AppProcess {
    SysTray,
}

impl AppProcess {
    /// The role's executable name.
    pub open spec fn spec_name(self) -> Seq<char> {
        match self {
            AppProcess::SysTray => "smart_tray.exe"@,
        }
    }

    /// The name of the role's lock file: the executable's stem with `.lock`.
    pub open spec fn spec_lock_name(self) -> Seq<char> {
        match self {
            AppProcess::SysTray => "smart_tray.lock"@,
        }
    }

    pub fn to_string(&self) -> (r: String)
        ensures
            r@ == self.spec_name(),
    {
        match self {
            AppProcess::SysTray => String::from_str("smart_tray.exe"),
        }
    }
}

/// Relies on sysinfo's `System::process`, over a table of the processes
/// refreshed now: the name of the live process with id `pid`, if there is one.
#[verifier::external_body]
pub(crate) fn live_process_name(pid: u32) -> (r: Option<String>)
{
    let s = System::new_with_specifics(RefreshKind::nothing().with_processes(ProcessRefreshKind::nothing()));
    s.process(Pid::from_u32(pid)).map(|p| p.name().to_string_lossy().into_owned())
}

/// Relies on sysinfo's `System::processes_by_exact_name`, over a table of the
/// processes refreshed now: the id and name of one live process whose name
/// equals `name`, which the call's filter guarantees.
#[verifier::external_body]
fn first_process_named(name: &str) -> (r: Option<(u32, String)>)
    ensures
        r matches Some((_, n)) ==> n@ == name@,
{
    let s = System::new_with_specifics(RefreshKind::nothing().with_processes(ProcessRefreshKind::nothing()));
    let found = s.processes_by_exact_name(name.as_ref()).next();
    found.map(|p| (p.pid().as_u32(), p.name().to_string_lossy().into_owned()))
}

/// The id in `found` where the process found runs as `app`: its name is
/// exactly the role's executable name.
pub fn pid_if_named(app: AppProcess, found: Option<(u32, String)>) -> (r: Option<u32>)
    ensures
        r == match found {
            Some((pid, name)) => if name@ == app.spec_name() {
                Some(pid)
            } else {
                None
            },
            None => None,
        },
{
    match found {
        Some((pid, name)) => {
            let expected = app.to_string();
            if name == expected {
                Some(pid)
            } else {
                None
            }
        },
        None => None,
    }
}

/// The id of a live process that runs as `app`, if the process table shows
/// one.
pub fn get_pid(app: AppProcess) -> Option<u32> {
    let name = app.to_string();
    let found = first_process_named(name.as_str());
    pid_if_named(app, found)
}

} // verus!
