//! The idle coordination engine of a workstation idler: the settings store
//! with self-repair, the idle monitor's decisions, the corrective-action
//! plan, the power listener's message handling, the shutdown scheduler and
//! the single-instance guard. What touches the operating system is done by
//! the caller, which hands each decision what it observed.
pub mod clock;
pub mod dispatch;
pub mod idle;
pub mod instance;
pub mod power;
pub mod process;
pub mod settings;
pub mod shell;
pub mod shutdown;
pub mod startup;
pub mod text;
