//! The power-event listener's decisions on the messages of the platform's
//! message pump.
use vstd::prelude::*;

verus! {

/// The power-broadcast message.
pub const POWER_BROADCAST_MESSAGE: u32 = 0x0218;

/// The broadcast's first parameter when a power setting changed.
pub const POWER_SETTING_CHANGE: usize = 0x8013;

/// The identifier of the monitor's power setting.
pub const MONITOR_GUID: u128 = 0x6FE69556_704A_47A0_8F24_C28D936FDA47;

/// A message of the pump, as far as the listener cares.
#[derive(Clone, Copy, Debug, PartialEq, Eq, Structural)]
pub enum PowerEvent {
    /// The monitor's power setting changed to off.
    MonitorOff,
    /// Any other message, by its number.
    Other(u32),
}

/// What the listener does with a message.
#[derive(Clone, Copy, Debug, PartialEq, Eq, Structural)]
pub enum PowerReaction {
    /// Run a mouse correction, then store the time as the last one, and
    /// answer the message as handled.
    Correct,
    /// Hand the message to the platform's default handler.
    PassOn,
}

/// Whether the message carries a power-setting payload to read.
pub fn carries_setting(message: u32, wparam: usize) -> (r: bool)
    ensures
        r == (message == POWER_BROADCAST_MESSAGE && wparam == POWER_SETTING_CHANGE),
{
    message == POWER_BROADCAST_MESSAGE && wparam == POWER_SETTING_CHANGE
}

pub open spec fn spec_classify(message: u32, wparam: usize, setting: u128, data: Seq<u8>) -> PowerEvent {
    if message == POWER_BROADCAST_MESSAGE && wparam == POWER_SETTING_CHANGE && setting
        == MONITOR_GUID && data == seq![0u8] {
        PowerEvent::MonitorOff
    } else {
        PowerEvent::Other(message)
    }
}

/// Names a message: the monitor going off is a setting-change broadcast for
/// the monitor's setting whose payload is the single byte zero. `setting` and
/// `data` are read only where `carries_setting` holds.
pub fn classify(message: u32, wparam: usize, setting: u128, data: &[u8]) -> (r: PowerEvent)
    ensures
        r == spec_classify(message, wparam, setting, data@),
{
    if carries_setting(message, wparam) && setting == MONITOR_GUID && data.len() == 1 && data[0]
        == 0 {
        assert(data@ =~= seq![0u8]);
        PowerEvent::MonitorOff
    } else {
        PowerEvent::Other(message)
    }
}

/// The monitor going off calls for a correction; every other message is
/// handed to the platform's default handler.
pub fn reaction(event: PowerEvent) -> (r: PowerReaction)
    ensures
        r == match event {
            PowerEvent::MonitorOff => PowerReaction::Correct,
            PowerEvent::Other(_) => PowerReaction::PassOn,
        },
{
    match event {
        PowerEvent::MonitorOff => PowerReaction::Correct,
        PowerEvent::Other(_) => PowerReaction::PassOn,
    }
}

} // verus!
