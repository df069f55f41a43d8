//! The settings store: one cached value per setting key, kept coherent with
//! a backing key-value store that may fail at any call.
//!
//! The store itself lives outside the library. A setting hands over what to
//! read or write, and takes back what the store answered; it only changes its
//! cache on an answer that the store accepted.
use crate::clock::get_current_time;
use crate::text::text_eq;
use vstd::prelude::*;
use vstd::string::*;

verus! {

/// The two values of an on/off setting.
#[derive(Clone, Copy, Debug, PartialEq, Eq, Structural)]
pub enum RegistryState {
    Enabled,
    Disabled,
}

impl RegistryState {
    pub open spec fn spec_name(self) -> Seq<char> {
        match self {
            RegistryState::Enabled => "Enabled"@,
            RegistryState::Disabled => "Disabled"@,
        }
    }

    pub fn to_string(&self) -> (r: String)
        ensures
            r@ == self.spec_name(),
    {
        match self {
            RegistryState::Enabled => String::from_str("Enabled"),
            RegistryState::Disabled => String::from_str("Disabled"),
        }
    }
}

/// The keys of the settings store.
#[derive(Clone, Copy, Debug, PartialEq, Eq, Structural)]
pub enum RegistryEntries {
    ForceInterval,
    LastRobotInput,
    LogStatistics,
    ShutdownTime,
    StartMaintenance,
    StartWithWindows,
}

/// Why the backing store did not answer as asked.
#[derive(Clone, Copy, Debug, PartialEq, Eq, Structural)]
pub enum StoreError {
    /// The application's namespace could not be opened.
    Unreachable,
    /// The key holds no value.
    NotFound,
    /// The store refused the value.
    Rejected,
}

impl RegistryEntries {
    pub open spec fn spec_name(self) -> Seq<char> {
        match self {
            RegistryEntries::ForceInterval => "ForceInterval"@,
            RegistryEntries::LastRobotInput => "LastRobotInput"@,
            RegistryEntries::LogStatistics => "LogStatistics"@,
            RegistryEntries::ShutdownTime => "ShutdownTime"@,
            RegistryEntries::StartMaintenance => "StartMaintenance"@,
            RegistryEntries::StartWithWindows => "StartWithWindows"@,
        }
    }

    /// The name under which the key is stored.
    pub fn to_string(&self) -> (r: String)
        ensures
            r@ == self.spec_name(),
    {
        match self {
            RegistryEntries::ForceInterval => String::from_str("ForceInterval"),
            RegistryEntries::LastRobotInput => String::from_str("LastRobotInput"),
            RegistryEntries::LogStatistics => String::from_str("LogStatistics"),
            RegistryEntries::ShutdownTime => String::from_str("ShutdownTime"),
            RegistryEntries::StartMaintenance => String::from_str("StartMaintenance"),
            RegistryEntries::StartWithWindows => String::from_str("StartWithWindows"),
        }
    }

    /// The key that a user-interface request names, if any.
    pub open spec fn spec_requested(s: Seq<char>) -> Option<RegistryEntries> {
        if s == "force_interval"@ {
            Some(RegistryEntries::ForceInterval)
        } else if s == "robot_input"@ {
            Some(RegistryEntries::LastRobotInput)
        } else if s == "logging"@ {
            Some(RegistryEntries::LogStatistics)
        } else if s == "shutdown"@ {
            Some(RegistryEntries::ShutdownTime)
        } else if s == "maintenance"@ {
            Some(RegistryEntries::StartMaintenance)
        } else if s == "startup"@ {
            Some(RegistryEntries::StartWithWindows)
        } else {
            None
        }
    }

    pub fn from_request(data: &str) -> (r: Option<RegistryEntries>)
        ensures
            r == Self::spec_requested(data@),
    {
        if text_eq(data, "force_interval") {
            Some(RegistryEntries::ForceInterval)
        } else if text_eq(data, "robot_input") {
            Some(RegistryEntries::LastRobotInput)
        } else if text_eq(data, "logging") {
            Some(RegistryEntries::LogStatistics)
        } else if text_eq(data, "shutdown") {
            Some(RegistryEntries::ShutdownTime)
        } else if text_eq(data, "maintenance") {
            Some(RegistryEntries::StartMaintenance)
        } else if text_eq(data, "startup") {
            Some(RegistryEntries::StartWithWindows)
        } else {
            None
        }
    }
}

/// The default of every key but `LastRobotInput`, whose default is the time
/// of day at which the setting is made.
pub open spec fn fixed_default(e: RegistryEntries) -> Seq<char> {
    match e {
        RegistryEntries::ForceInterval => "60"@,
        RegistryEntries::ShutdownTime => "18:00"@,
        _ => RegistryState::Disabled.spec_name(),
    }
}

/// The cache after a read to which the store answered `got`: a value that the
/// store holds replaces it; an empty value or a failure leaves it.
pub open spec fn cache_after_read(cache: Seq<char>, got: Result<String, StoreError>) -> Seq<char> {
    match got {
        Ok(v) => if v@.len() > 0 {
            v@
        } else {
            cache
        },
        Err(_) => cache,
    }
}

/// What a read to which the store answered `got` returns.
pub open spec fn read_result(got: Result<String, StoreError>) -> Result<String, StoreError> {
    match got {
        Ok(v) => if v@.len() > 0 {
            Ok(v)
        } else {
            Err(StoreError::NotFound)
        },
        Err(e) => Err(e),
    }
}

/// The cache after a write of `value` to which the store answered `outcome`:
/// only a non-empty value that the store accepted replaces it.
pub open spec fn cache_after_write(
    cache: Seq<char>,
    value: Seq<char>,
    outcome: Result<(), StoreError>,
) -> Seq<char> {
    if value.len() > 0 && outcome is Ok {
        value
    } else {
        cache
    }
}

/// What a write of `value` to which the store answered `outcome` returns.
pub open spec fn write_result(value: Seq<char>, outcome: Result<(), StoreError>) -> Result<
    (),
    StoreError,
> {
    if value.len() == 0 {
        Err(StoreError::Rejected)
    } else {
        match outcome {
            Ok(_) => Ok(()),
            Err(e) => Err(e),
        }
    }
}

/// What to do after a failed read: write the cache back, and first create the
/// application's namespace where it could not be opened. It carries the
/// read's failure, for the caller to report.
pub struct RepairPlan {
    pub failure: StoreError,
    pub create_namespace: bool,
    pub rewrite: String,
}

/// One setting: its key and the last value known to be in the store.
pub struct RegistrySetting {
    pub registry_entry: RegistryEntries,
    pub last_data: String,
}

impl RegistrySetting {
    /// The cache is never empty.
    pub open spec fn wf(&self) -> bool {
        self.last_data@.len() > 0
    }

    pub open spec fn spec_is_enabled(&self) -> bool {
        self.last_data@ != RegistryState::Disabled.spec_name()
    }

    /// A setting for `entry` whose cache holds the key's default, before any
    /// read of the store; `get_or_init` makes one from what the store holds.
    pub fn new(entry: &RegistryEntries) -> (r: RegistrySetting)
        ensures
            r.registry_entry == *entry,
            r.wf(),
            *entry != RegistryEntries::LastRobotInput ==> r.last_data@ == fixed_default(*entry),
            *entry == RegistryEntries::LastRobotInput ==> r.last_data@.len() == 8,
    {
        let initial = match entry {
            RegistryEntries::ForceInterval => String::from_str("60"),
            RegistryEntries::LastRobotInput => get_current_time(),
            RegistryEntries::ShutdownTime => String::from_str("18:00"),
            _ => RegistryState::Disabled.to_string(),
        };
        proof {
            reveal_strlit("60");
            reveal_strlit("18:00");
            reveal_strlit("Disabled");
        }
        RegistrySetting { registry_entry: *entry, last_data: initial }
    }

    /// Takes in what the store answered to a read of this setting's key.
    /// On a value, the cache takes it and the value is returned; on an empty
    /// value or a failure the cache is kept and the failure returned, and
    /// `repair_plan` says how to put the store right.
    pub fn update_local_from_registry(&mut self, got: Result<String, StoreError>) -> (r: Result<
        String,
        StoreError,
    >)
        ensures
            final(self).registry_entry == old(self).registry_entry,
            final(self).last_data@ == cache_after_read(old(self).last_data@, got),
            r == read_result(got),
            old(self).wf() ==> final(self).wf(),
    {
        match got {
            Ok(v) => {
                if v.unicode_len() > 0 {
                    self.last_data = v.clone();
                    Ok(v)
                } else {
                    Err(StoreError::NotFound)
                }
            },
            Err(e) => Err(e),
        }
    }

    /// Takes in what the store answered to a write of `new_data` under this
    /// setting's key. The cache takes the value only where the store accepted
    /// it; an empty value is refused, as it would empty the cache.
    pub fn set_registry_data(&mut self, new_data: &str, outcome: Result<(), StoreError>) -> (r:
        Result<(), StoreError>)
        ensures
            final(self).registry_entry == old(self).registry_entry,
            final(self).last_data@ == cache_after_write(old(self).last_data@, new_data@, outcome),
            r == write_result(new_data@, outcome),
            old(self).wf() ==> final(self).wf(),
    {
        if new_data.unicode_len() == 0 {
            return Err(StoreError::Rejected);
        }
        match outcome {
            Ok(()) => {
                self.last_data = String::from_str(new_data);
                Ok(())
            },
            Err(e) => Err(e),
        }
    }

    /// How to put the store right after a read that failed with `failure`.
    pub fn repair_plan(&self, failure: StoreError) -> (r: RepairPlan)
        ensures
            r.failure == failure,
            r.create_namespace == (failure == StoreError::Unreachable),
            r.rewrite@ == self.last_data@,
    {
        RepairPlan {
            failure,
            create_namespace: failure == StoreError::Unreachable,
            rewrite: self.last_data.clone(),
        }
    }

    /// Whether the setting is on: any value but the disabled one.
    pub fn is_enabled(&self) -> (r: bool)
        ensures
            r == self.spec_is_enabled(),
    {
        !text_eq(self.last_data.as_str(), "Disabled")
    }
}

/// Makes the setting for `entry` from what the store answered to the first
/// read of its key. Where the read failed, the setting keeps the key's
/// default, and the plan carries the failure and says how to write the
/// default back.
pub fn get_or_init(entry: RegistryEntries, got: Result<String, StoreError>) -> (r: (
    RegistrySetting,
    Option<RepairPlan>,
))
    ensures
        r.0.registry_entry == entry,
        r.0.wf(),
        read_result(got) is Ok ==> r.0.last_data@ == got->Ok_0@ && r.1 is None,
        read_result(got) is Err ==> {
            &&& entry != RegistryEntries::LastRobotInput ==> r.0.last_data@ == fixed_default(entry)
            &&& r.1 is Some
            &&& r.1->Some_0.failure == read_result(got)->Err_0
            &&& r.1->Some_0.rewrite@ == r.0.last_data@
            &&& r.1->Some_0.create_namespace == (got == Err::<String, StoreError>(
                StoreError::Unreachable,
            ))
        },
{
    let mut setting = RegistrySetting::new(&entry);
    match setting.update_local_from_registry(got) {
        Ok(_) => (setting, None),
        Err(e) => {
            let plan = setting.repair_plan(e);
            (setting, Some(plan))
        },
    }
}

/// A setting never ends with an empty cache: after a read that failed (the
/// store lost the value, or could not be reached) and the write that repairs
/// it, whatever the store answered to either, the cache still holds a value.
pub proof fn lemma_cache_survives_failed_read(
    cache: Seq<char>,
    got: Result<String, StoreError>,
    repair: Result<(), StoreError>,
)
    requires
        cache.len() > 0,
    ensures
        cache_after_read(cache, got).len() > 0,
        cache_after_write(cache_after_read(cache, got), cache_after_read(cache, got), repair).len()
            > 0,
{
}

/// Writing a value twice leaves the same cache as writing it once, and the
/// second write reports success whenever the store accepts it.
pub proof fn lemma_write_idempotent(
    cache: Seq<char>,
    value: Seq<char>,
    second: Result<(), StoreError>,
)
    ensures
        cache_after_write(cache_after_write(cache, value, Ok(())), value, second)
            == cache_after_write(cache, value, Ok(())),
        second is Ok ==> write_result(value, second) == write_result(value, Ok(())),
{
}

} // verus!
