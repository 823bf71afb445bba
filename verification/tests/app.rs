use app_base::app::{plan_startup, Startup};
use app_base::cli::{CliArgs, ConfigPath, InitArgs, RuntimeArgs};
use app_base::config::{Loader, Request, TomlOptions};
use app_base::error::{AppError, ConfigError};
use app_base::{AppConfigLocation, Context, Privilege};
use std::path::PathBuf;

#[test]
fn a_new_location_is_enabled_and_has_no_directory() {
    let location = AppConfigLocation::new("demo");
    assert_eq!(location.app_name, "demo");
    assert_eq!(location.config_dir, None);
    assert!(location.enabled);
}

#[test]
fn with_dir_sets_the_directory_only() {
    let location = AppConfigLocation::new("demo").with_dir(PathBuf::from("/etc/demo"));
    assert_eq!(location.app_name, "demo");
    assert_eq!(location.config_dir, Some(PathBuf::from("/etc/demo")));
    assert!(location.enabled);
}

#[test]
fn disabled_clears_the_switch_only() {
    let location = AppConfigLocation::new("demo").with_dir(PathBuf::from("/etc/demo")).disabled();
    assert_eq!(location.app_name, "demo");
    assert_eq!(location.config_dir, Some(PathBuf::from("/etc/demo")));
    assert!(!location.enabled);
}

#[test]
fn the_last_directory_counts() {
    let location = AppConfigLocation::new("demo")
        .with_dir(PathBuf::from("/a"))
        .with_dir(PathBuf::from("/b"));
    assert_eq!(location.config_dir, Some(PathBuf::from("/b")));
}

#[test]
fn to_toml_options_says_the_same() {
    let location = AppConfigLocation::new("demo").with_dir(PathBuf::from("/etc/demo"));
    let opts = location.to_toml_options();
    assert_eq!(
        opts,
        TomlOptions {
            app_name: "demo".to_string(),
            config_dir: Some(PathBuf::from("/etc/demo")),
            enabled: true,
        }
    );
    let off = location.clone().disabled().to_toml_options();
    assert!(!off.enabled);
    assert_eq!(off.app_name, "demo");
}

#[test]
fn any_user_has_the_privilege_of_a_user() {
    assert!(Privilege::User.allows(0));
    assert!(Privilege::User.allows(1000));
    assert!(Privilege::User.allows(u32::MAX));
}

#[test]
fn only_user_zero_has_the_privilege_of_root() {
    assert!(Privilege::Root.allows(0));
    assert!(!Privilege::Root.allows(1));
    assert!(!Privilege::Root.allows(1000));
    assert!(!Privilege::Root.allows(u32::MAX));
}

#[test]
fn startup_is_refused_without_the_privilege() {
    let plan = plan_startup(Privilege::Root, 1000, Some(AppConfigLocation::new("demo")), true);
    assert_eq!(plan, Startup::Refused);
    assert_eq!(plan_startup(Privilege::Root, 1000, None, true), Startup::Refused);
    assert_eq!(plan_startup(Privilege::Root, 1000, None, false), Startup::Refused);
}

#[test]
fn startup_loads_with_the_options_of_the_location() {
    let location = AppConfigLocation::new("demo").with_dir(PathBuf::from("/etc/demo"));
    let plan = plan_startup(Privilege::Root, 0, Some(location.clone()), true);
    assert_eq!(plan, Startup::Load(location.to_toml_options()));
    let plan = plan_startup(Privilege::User, 1000, Some(location.clone()), true);
    assert_eq!(plan, Startup::Load(location.to_toml_options()));
}

#[test]
fn startup_reads_nothing_where_the_location_is_switched_off() {
    let location = AppConfigLocation::new("demo").with_dir(PathBuf::from("/etc/demo"));
    let plan = plan_startup(Privilege::User, 1000, Some(location.disabled()), true);
    assert_eq!(
        plan,
        Startup::Defaults(TomlOptions {
            app_name: "demo".to_string(),
            config_dir: Some(PathBuf::from("/etc/demo")),
            enabled: false,
        })
    );
}

#[test]
fn startup_reads_nothing_where_the_application_has_no_configuration() {
    let location = AppConfigLocation::new("demo").with_dir(PathBuf::from("/etc/demo"));
    let plan = plan_startup(Privilege::User, 1000, Some(location), false);
    assert_eq!(
        plan,
        Startup::Defaults(TomlOptions {
            app_name: "demo".to_string(),
            config_dir: Some(PathBuf::from("/etc/demo")),
            enabled: false,
        })
    );
}

#[test]
fn startup_without_a_location_reads_no_configuration() {
    for reads_config in [true, false] {
        let plan = plan_startup(Privilege::User, 1000, None, reads_config);
        assert_eq!(
            plan,
            Startup::Defaults(TomlOptions {
                app_name: "rust_unnamed_app".to_string(),
                config_dir: None,
                enabled: false,
            })
        );
    }
}

fn context(path: Option<&str>, enabled: bool) -> Context<u32, &'static str> {
    let opts = TomlOptions {
        app_name: "demo".to_string(),
        config_dir: Some(PathBuf::from("/etc/demo")),
        enabled,
    };
    Context::new(7, RuntimeArgs { verbose: true }, "signals", path.map(PathBuf::from), opts)
}

#[test]
fn a_context_holds_what_it_was_given() {
    let ctx = context(None, true);
    assert_eq!(ctx.config, 7);
    assert_eq!(ctx.runtime, RuntimeArgs { verbose: true });
    assert_eq!(ctx.signals, "signals");
    assert!(ctx.config_enabled());
    assert!(!context(None, false).config_enabled());
}

#[test]
fn a_reload_reads_the_captured_explicit_path() {
    let ctx = context(Some("/tmp/o.toml"), true);
    let loader: Loader<u32> = ctx.begin_reload().unwrap().unwrap();
    assert_eq!(loader.request(), Request::Probe { path: PathBuf::from("/tmp/o.toml") });
    let again: Loader<u32> = ctx.begin_reload().unwrap().unwrap();
    assert_eq!(again.request(), Request::Probe { path: PathBuf::from("/tmp/o.toml") });
}

#[test]
fn a_reload_without_explicit_path_reads_the_captured_directory() {
    let ctx = context(None, true);
    let loader: Loader<u32> = ctx.begin_reload().unwrap().unwrap();
    assert_eq!(
        loader.request(),
        Request::Probe { path: PathBuf::from("/etc/demo/config.toml") }
    );
}

#[test]
fn a_reload_begins_nothing_where_the_configuration_is_off() {
    let ctx = context(Some("/tmp/o.toml"), false);
    assert!(ctx.begin_reload().is_none());
}

#[test]
fn a_reloaded_configuration_replaces_the_old_one() {
    let mut ctx = context(None, true);
    assert_eq!(ctx.finish_reload(Ok(8)), Ok(()));
    assert_eq!(ctx.config, 8);
    assert_eq!(ctx.runtime, RuntimeArgs { verbose: true });
    assert!(ctx.config_enabled());
}

#[test]
fn a_failed_reload_keeps_the_old_configuration() {
    let mut ctx = context(None, true);
    let done = ctx.finish_reload(Err(ConfigError::Io("gone".to_string())));
    assert_eq!(done, Err(AppError::Config(ConfigError::Io("gone".to_string()))));
    assert_eq!(ctx.config, 7);
}

#[test]
fn arguments_name_the_explicit_configuration_file() {
    let init = InitArgs { config: Some(PathBuf::from("/tmp/o.toml")) };
    assert_eq!(init.config_path(), Some(PathBuf::from("/tmp/o.toml")));
    let args = CliArgs { init: init.clone(), runtime: RuntimeArgs { verbose: false } };
    assert_eq!(args.config_path(), Some(PathBuf::from("/tmp/o.toml")));
    let copy = args.clone();
    assert_eq!(copy, args);
    let none = CliArgs { init: InitArgs { config: None }, runtime: RuntimeArgs { verbose: true } };
    assert_eq!(none.config_path(), None);
}

#[test]
fn a_context_hands_out_what_it_holds() {
    let ctx = context(None, true);
    assert_eq!(*ctx.config(), 7);
    assert_eq!(*ctx.runtime(), RuntimeArgs { verbose: true });
    assert_eq!(*ctx.signals(), "signals");
}

#[test]
fn a_copy_of_a_context_reloads_from_the_same_place() {
    let ctx = context(Some("/tmp/o.toml"), true);
    let copy = ctx.clone();
    assert_eq!(copy.config, 7);
    assert_eq!(copy.runtime, RuntimeArgs { verbose: true });
    assert_eq!(copy.signals, "signals");
    assert!(copy.config_enabled());
    let loader: Loader<u32> = copy.begin_reload().unwrap().unwrap();
    assert_eq!(loader.request(), Request::Probe { path: PathBuf::from("/tmp/o.toml") });
    assert!(!context(None, false).clone().config_enabled());
}
