//! Which file a run reads: an explicit path, else a file in the configured
//! directory, else a file in a hidden directory under the user's home.

use crate::config::options::{OptionsView, TomlOptions};
use crate::error::{ConfigError, ConfigErrorView};
use crate::paths::{home_dir, join, joined_text, opt_path_text, path_text};
use std::path::PathBuf;
use vstd::prelude::*;
use vstd::string::StringExecFns;

verus! {

/// The name of the configuration file inside its directory.
pub const CONFIG_FILE: &'static str = "config.toml";

/// The name of an application's directory under the user's home: a dot,
/// then the application's name.
pub open spec fn hidden_dir_name(app_name: Seq<char>) -> Seq<char> {
    "."@ + app_name
}

/// The default location for the given options and home directory: the file
/// in the configured directory, else the file in the application's hidden
/// directory under the home, else nothing.
pub open spec fn default_text(opts: OptionsView, home: Option<Seq<u8>>) -> Option<Seq<u8>> {
    match opts.config_dir {
        Some(dir) => Some(joined_text(dir, CONFIG_FILE@)),
        None => match home {
            Some(h) => Some(
                joined_text(joined_text(h, hidden_dir_name(opts.app_name)), CONFIG_FILE@),
            ),
            None => None,
        },
    }
}

/// The location a run uses: the explicit path wherever one is given, else
/// the default location.
pub open spec fn resolved_text(
    cli_path: Option<Seq<u8>>,
    opts: OptionsView,
    home: Option<Seq<u8>>,
) -> Option<Seq<u8>> {
    match cli_path {
        Some(p) => Some(p),
        None => default_text(opts, home),
    }
}

/// Whether `found` reports the location `text`: that path where there is
/// one, and `ConfigDirNotFound` where there is none.
pub open spec fn reports(found: Result<PathBuf, ConfigError>, text: Option<Seq<u8>>) -> bool {
    match text {
        Some(t) => found is Ok && path_text(found->Ok_0) == t,
        None => found is Err && found->Err_0@ == ConfigErrorView::ConfigDirNotFound,
    }
}

/// The default location, given what the platform said of the home
/// directory.
fn default_path(opts: &TomlOptions, home: Option<PathBuf>) -> (found: Result<PathBuf, ConfigError>)
    ensures
        reports(found, default_text(opts@, opt_path_text(home))),
{
    match &opts.config_dir {
        Some(dir) => Ok(join(dir, CONFIG_FILE)),
        None => match home {
            Some(h) => {
                let mut name = ".".to_owned();
                name.append(opts.app_name.as_str());
                let dir = join(&h, name.as_str());
                Ok(join(&dir, CONFIG_FILE))
            },
            None => Err(ConfigError::ConfigDirNotFound),
        },
    }
}

/// Resolves the configuration file for a run, given what the platform
/// said of the home directory.
pub fn resolve_path_from(
    cli_path: Option<PathBuf>,
    opts: &TomlOptions,
    home: Option<PathBuf>,
) -> (found: Result<PathBuf, ConfigError>)
    ensures
        reports(found, resolved_text(opt_path_text(cli_path), opts@, opt_path_text(home))),
{
    match cli_path {
        Some(p) => Ok(p),
        None => default_path(opts, home),
    }
}

/// Resolves the configuration file for a run. The home directory is asked
/// for only where neither an explicit path nor a directory is given; the
/// result is then the one that `resolved_text` gives for some answer.
pub fn resolve_path(cli_path: Option<PathBuf>, opts: &TomlOptions) -> (found: Result<
    PathBuf,
    ConfigError,
>)
    ensures
        cli_path is Some || opts.config_dir is Some ==> reports(
            found,
            resolved_text(opt_path_text(cli_path), opts@, None),
        ),
        exists|home: Option<Seq<u8>>|
            reports(found, #[trigger] resolved_text(opt_path_text(cli_path), opts@, home)),
{
    let home = if cli_path.is_none() && opts.config_dir.is_none() {
        home_dir()
    } else {
        None
    };
    let found = resolve_path_from(cli_path, opts, home);
    assert(reports(found, resolved_text(opt_path_text(cli_path), opts@, opt_path_text(home))));
    found
}

} // verus!
