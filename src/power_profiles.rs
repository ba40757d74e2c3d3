//! The state that the shell keeps of the power-profiles daemon.
use vstd::prelude::*;
use vstd::string::StringExecFns;

verus! {

/// Whether a property the daemon reported as text holds the value `true`; an
/// unread property counts as `false`.
pub open spec fn flag_of(value: Option<String>) -> bool {
    value matches Some(v) && v@ == "true"@
}

/// What the shell knows of the power-profiles daemon.
#[derive(Debug, Clone, Default)]
pub struct PowerProfilesServiceInner {
    /// The name of the active profile; empty where it could not be read.
    pub active_profile: String,
    /// The names of the profiles on offer.
    pub profiles: Vec<String>,
    pub performance_degraded: bool,
    pub performance_inhibited: bool,
}

/// Reads a text flag of the daemon.
fn flag(value: &Option<String>) -> (r: bool)
    ensures
        r == flag_of(*value),
{
    match value {
        Some(v) => *v == String::from_str("true"),
        None => false,
    }
}

impl PowerProfilesServiceInner {
    /// Takes in the properties read from the daemon: a property that could
    /// not be read becomes empty or `false`.
    pub fn apply_properties(
        &mut self,
        active_profile: Option<String>,
        profiles: Option<Vec<String>>,
        performance_degraded: Option<String>,
        performance_inhibited: Option<String>,
    )
        ensures
            final(self).active_profile@ == match active_profile {
                Some(p) => p@,
                None => Seq::<char>::empty(),
            },
            final(self).profiles@ == match profiles {
                Some(p) => p@,
                None => Seq::<String>::empty(),
            },
            final(self).performance_degraded == flag_of(performance_degraded),
            final(self).performance_inhibited == flag_of(performance_inhibited),
    {
        self.performance_degraded = flag(&performance_degraded);
        self.performance_inhibited = flag(&performance_inhibited);
        self.active_profile = match active_profile {
            Some(p) => p,
            None => String::new(),
        };
        self.profiles = match profiles {
            Some(p) => p,
            None => Vec::new(),
        };
    }

    /// Makes `profile` the active profile.
    pub fn set_active_profile(&mut self, profile: String)
        ensures
            final(self).active_profile == profile,
            final(self).profiles == old(self).profiles,
            final(self).performance_degraded == old(self).performance_degraded,
            final(self).performance_inhibited == old(self).performance_inhibited,
    {
        self.active_profile = profile;
    }
}

} // verus!
