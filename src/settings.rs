//! Run-time switches of the simulator.
use vstd::prelude::*;

verus! {

/// Switches read from the settings file.
#[derive(Clone, Copy, PartialEq, Eq, Structural, Debug)]
pub struct Settings {
    pub fast_read: bool,
    pub fast_icnt: bool,
}

/// Installs `table` as the settings in force, replacing any earlier ones.
pub fn set_settings(slot: &mut Option<Settings>, table: Settings)
    ensures
        *final(slot) == Some(table),
{
    *slot = Some(table);
}

/// The settings in force, if any were installed.
pub fn get_settings(slot: &Option<Settings>) -> (r: Option<Settings>)
    ensures
        r == *slot,
{
    *slot
}

} // verus!
