//! The check that comes before anything else at startup.

use crate::app::config_location::AppConfigLocation;
use crate::config::options::{OptionsView, TomlOptions};
use vstd::prelude::*;

verus! {

/// The privilege an application needs to run.
#[derive(Debug, Clone, Copy, PartialEq, Eq, Structural)]
pub enum Privilege {
    /// Any user will do.
    User,
    /// Only the superuser will do.
    Root,
}

impl Privilege {
    /// Whether a process with effective user id `euid` has this privilege:
    /// any process has that of a user, and only user 0 that of root.
    pub open spec fn held_by(self, euid: u32) -> bool {
        self == Privilege::User || euid == 0
    }

    /// Whether a process with effective user id `euid` has this privilege.
    pub fn allows(self, euid: u32) -> (held: bool)
        ensures
            held == self.held_by(euid),
    {
        match self {
            Privilege::User => true,
            Privilege::Root => euid == 0,
        }
    }
}

/// How a run begins.
#[derive(Debug, PartialEq, Eq)]
pub enum Startup {
    /// The process lacks the privilege the application needs: nothing is
    /// read and nothing is started.
    Refused,
    /// The run reads its configuration with these options and then
    /// starts.
    Load(TomlOptions),
    /// The run reads nothing and starts on the default configuration.
    /// These are its options, with the configuration switched off.
    Defaults(TomlOptions),
}

/// The options a run goes on with. Where the application gave a location
/// they are those of the location, with the configuration switched on only
/// where both the location and the application have it so. Where it gave
/// none, they are the defaults with the configuration switched off.
pub open spec fn startup_options(location: Option<OptionsView>, reads_config: bool) -> OptionsView {
    match location {
        Some(given) => OptionsView { enabled: given.enabled && reads_config, ..given },
        None => OptionsView { app_name: "rust_unnamed_app"@, config_dir: None, enabled: false },
    }
}

/// The mathematical value of an optional location.
pub open spec fn opt_location_view(location: Option<AppConfigLocation>) -> Option<OptionsView> {
    match location {
        Some(given) => Some(given@),
        None => None,
    }
}

/// Whether `plan` is how a run with these options begins: it loads its
/// configuration where they have it switched on, and else starts on the
/// defaults.
pub open spec fn proceeds_with(plan: Startup, opts: OptionsView) -> bool {
    if opts.enabled {
        plan is Load && plan->Load_0@ == opts
    } else {
        plan is Defaults && plan->Defaults_0@ == opts
    }
}

/// Decides how a run begins: whether it may begin at all, with which
/// options, and whether it reads its configuration. `reads_config` is the
/// application's own word on whether it has a configuration file. The
/// privilege is checked first, so that no configuration is read by a
/// process that is then refused.
pub fn plan_startup(
    required: Privilege,
    euid: u32,
    location: Option<AppConfigLocation>,
    reads_config: bool,
) -> (plan: Startup)
    ensures
        !required.held_by(euid) ==> plan is Refused,
        required.held_by(euid) ==> proceeds_with(
            plan,
            startup_options(opt_location_view(location), reads_config),
        ),
{
    if !required.allows(euid) {
        return Startup::Refused;
    }
    let opts = match location {
        Some(given) => {
            let mut opts = given.to_toml_options();
            opts.enabled = opts.enabled && reads_config;
            opts
        },
        None => {
            let mut opts = TomlOptions::default();
            opts.enabled = false;
            opts
        },
    };
    if opts.enabled {
        Startup::Load(opts)
    } else {
        Startup::Defaults(opts)
    }
}

} // verus!
