//! Settings of the shell's services.
use vstd::prelude::*;

verus! {

/// A power profile of the machine.
#[derive(Debug, Clone, Copy, PartialEq, Eq, Structural)]
pub enum PowerProfile {
    Balanced,
    HighPerformance,
    PowerSaver,
}

impl Default for PowerProfile {
    fn default() -> (r: PowerProfile)
        ensures
            r == PowerProfile::Balanced,
    {
        PowerProfile::Balanced
    }
}

/// Settings of the power profile control.
#[derive(Debug, Clone, Copy, PartialEq, Eq, Structural)]
pub struct PowerProfilesConfig {
    pub enabled: bool,
}

impl Default for PowerProfilesConfig {
    fn default() -> (r: PowerProfilesConfig)
        ensures
            r == (PowerProfilesConfig { enabled: false }),
    {
        PowerProfilesConfig { enabled: false }
    }
}

/// Settings of the background services.
#[derive(Debug, Clone, Copy, PartialEq, Eq, Structural)]
pub struct ServiceConfig {
    /// How often the services poll their sources, in milliseconds.
    pub poll_interval_millis: u32,
}

impl Default for ServiceConfig {
    fn default() -> (r: ServiceConfig)
        ensures
            r == (ServiceConfig { poll_interval_millis: 10 }),
    {
        ServiceConfig { poll_interval_millis: 10 }
    }
}

/// The web search engine of the launcher.
#[derive(Debug, Clone, Copy, PartialEq, Eq, Hash, Structural)]
pub enum SearchEngine {
    DuckDuckGo,
    Google,
}

impl Default for SearchEngine {
    fn default() -> (r: SearchEngine)
        ensures
            r == SearchEngine::DuckDuckGo,
    {
        SearchEngine::DuckDuckGo
    }
}

/// Whether a listener of a reactive value stays subscribed after a call.
#[derive(Debug, Clone, Copy, PartialEq, Eq, Structural)]
pub enum ListenerControl {
    Remove,
    Keep,
}

impl Default for ListenerControl {
    fn default() -> (r: ListenerControl)
        ensures
            r == ListenerControl::Keep,
    {
        ListenerControl::Keep
    }
}

} // verus!
