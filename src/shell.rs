//! Names that the user-facing shell exchanges with the library: the tray
//! menu's items and the maintenance tool's commands.
use crate::text::text_eq;
use vstd::prelude::*;
use vstd::string::*;

verus! {

/// The entries of the tray menu.
#[derive(Clone, Copy, Debug, PartialEq, Eq, Structural)]
pub enum IdlerMenuItems {
    Show,
    Quit,
}

impl IdlerMenuItems {
    pub open spec fn spec_name(self) -> Seq<char> {
        match self {
            IdlerMenuItems::Show => "Show"@,
            IdlerMenuItems::Quit => "Quit"@,
        }
    }

    /// The item's id and label.
    pub fn to_string(&self) -> (r: String)
        ensures
            r@ == self.spec_name(),
    {
        match self {
            IdlerMenuItems::Show => String::from_str("Show"),
            IdlerMenuItems::Quit => String::from_str("Quit"),
        }
    }

    /// The item that a menu click's id names, if any.
    pub fn from_id(id: &str) -> (r: Option<IdlerMenuItems>)
        ensures
            r == if id@ == "Show"@ {
                Some(IdlerMenuItems::Show)
            } else if id@ == "Quit"@ {
                Some(IdlerMenuItems::Quit)
            } else {
                None
            },
    {
        if text_eq(id, "Show") {
            Some(IdlerMenuItems::Show)
        } else if text_eq(id, "Quit") {
            Some(IdlerMenuItems::Quit)
        } else {
            None
        }
    }
}

/// The commands of the maintenance tool.
#[derive(Clone, Copy, Debug, PartialEq, Eq, Structural)]
pub enum Commands {
    Start,
    Stop,
}

impl Commands {
    pub open spec fn spec_name(self) -> Seq<char> {
        match self {
            Commands::Start => "Start"@,
            Commands::Stop => "Stop"@,
        }
    }

    pub fn to_string(&self) -> (r: String)
        ensures
            r@ == self.spec_name(),
    {
        match self {
            Commands::Start => String::from_str("Start"),
            Commands::Stop => String::from_str("Stop"),
        }
    }
}

/// The executable of the maintenance tool.
pub const MAINTENANCE_EXE: &'static str = "MSchedExe.exe";

/// Switches the maintenance tool on and off.
pub struct Maintenance {}

impl Maintenance {
    /// The arguments that ask the tool for `wanted_state`: the command's name.
    pub fn command_args(wanted_state: &Commands) -> (r: Vec<String>)
        ensures
            r@.len() == 1,
            r@[0]@ == wanted_state.spec_name(),
    {
        let mut args: Vec<String> = Vec::new();
        args.push(wanted_state.to_string());
        args
    }
}

} // verus!
