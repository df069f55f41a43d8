//! The corrective-action dispatcher's plan: log, then inject, then mark.
use crate::settings::RegistrySetting;
use vstd::prelude::*;
use vstd::string::*;

verus! {

/// The kind of synthetic input that resets the idle timer.
#[derive(Clone, Copy, Debug, PartialEq, Eq, Structural)]
pub enum InputType {
    Mouse,
    Keyboard,
}

/// One audit record: when a correction happened, under which interval.
pub struct RobotInput {
    pub input_time: String,
    pub interval: String,
}

impl RobotInput {
    pub fn new(input_time: &str, interval: &str) -> (r: RobotInput)
        ensures
            r.input_time@ == input_time@,
            r.interval@ == interval@,
    {
        RobotInput { input_time: String::from_str(input_time), interval: String::from_str(interval) }
    }
}

/// The steps of one corrective action, in their order: the audit record to
/// append, if any; the input to inject; the time to store as the last
/// corrective action, whatever became of the first two.
pub struct DispatchPlan {
    pub record: Option<RobotInput>,
    pub input: InputType,
    pub mark: String,
}

/// Plans one correction at time `now`. A record is appended only while
/// `logging` is on; it holds `now` and the interval that `interval` caches.
pub fn plan_correction(
    input_type: InputType,
    logging: &RegistrySetting,
    interval: &RegistrySetting,
    now: &str,
) -> (r: DispatchPlan)
    ensures
        r.input == input_type,
        r.mark@ == now@,
        r.record is Some == logging.spec_is_enabled(),
        r.record matches Some(rec) ==> rec.input_time@ == now@ && rec.interval@
            == interval.last_data@,
{
    let record = if logging.is_enabled() {
        Some(RobotInput::new(now, interval.last_data.as_str()))
    } else {
        None
    };
    DispatchPlan { record, input: input_type, mark: String::from_str(now) }
}

} // verus!
