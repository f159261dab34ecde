//! The monitor that the daemon remembers between restarts.

use vstd::prelude::*;
use vstd::string::StringExecFns;

verus! {

/// The saved monitor.
#[derive(Debug, Clone)]
pub struct HrmConfig {
    /// Bluetooth address, as text.
    pub address: String,
    /// Name of the monitor; empty where none was saved.
    pub name: String,
}

/// The saved monitor as plain values.
pub struct HrmConfigView {
    /// Bluetooth address, as text.
    pub address: Seq<char>,
    /// Name of the monitor.
    pub name: Seq<char>,
}

impl View for HrmConfig {
    type V = HrmConfigView;

    open spec fn view(&self) -> HrmConfigView {
        HrmConfigView { address: self.address@, name: self.name@ }
    }
}

impl HrmConfig {
    /// The saved form of a monitor that has just been connected.
    pub fn new(address: &str, name: &str) -> (config: HrmConfig)
        ensures
            config@ == (HrmConfigView { address: address@, name: name@ }),
    {
        HrmConfig { address: String::from_str(address), name: String::from_str(name) }
    }
}

} // verus!
