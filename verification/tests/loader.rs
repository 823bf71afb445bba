use app_base::config::{load, reload, Loader, Reply, Request, TomlOptions};
use app_base::error::ConfigError;
use std::path::PathBuf;

fn file() -> PathBuf {
    PathBuf::from("/etc/demo/config.toml")
}

fn temp() -> PathBuf {
    PathBuf::from("/etc/demo/config.tmp")
}

fn failed(cause: &str) -> Reply<u32> {
    Reply::Failed(cause.to_string())
}

/// Feeds the replies of a run in which the file is missing and every step
/// up to `steps` succeeds.
fn missing_file_up_to(steps: usize) -> Loader<u32> {
    let replies: Vec<Reply<u32>> = vec![
        Reply::Exists(false),
        Reply::Completed,
        Reply::Text("workers = 8\n".to_string()),
        Reply::Completed,
        Reply::Completed,
        Reply::Completed,
        Reply::Text("workers = 8\n".to_string()),
        Reply::Value(8),
    ];
    let mut loader = Loader::start(file());
    for reply in replies.into_iter().take(steps) {
        loader.advance(reply);
    }
    loader
}

#[test]
fn a_load_begins_by_probing_its_file() {
    let loader: Loader<u32> = Loader::start(file());
    assert_eq!(loader.request(), Request::Probe { path: file() });
    assert_eq!(loader.path(), &file());
    assert!(!loader.finished());
    assert_eq!(loader.outcome(), None);
}

#[test]
fn an_existing_file_is_read_and_parsed() {
    let mut loader: Loader<u32> = Loader::start(file());
    loader.advance(Reply::Exists(true));
    assert_eq!(loader.request(), Request::Read { path: file() });
    loader.advance(Reply::Text("workers = 1\n".to_string()));
    assert_eq!(loader.request(), Request::Parse { contents: "workers = 1\n".to_string() });
    loader.advance(Reply::Value(1));
    assert!(loader.finished());
    assert_eq!(loader.request(), Request::Finished);
    assert_eq!(loader.outcome(), Some(Ok(1)));
}

#[test]
fn a_missing_file_is_created_step_by_step() {
    assert_eq!(
        missing_file_up_to(1).request(),
        Request::CreateDirs { dir: PathBuf::from("/etc/demo") }
    );
    assert_eq!(missing_file_up_to(2).request(), Request::SerializeDefault);
    assert_eq!(
        missing_file_up_to(3).request(),
        Request::WriteTemp { path: temp(), contents: "workers = 8\n".to_string() }
    );
    assert_eq!(missing_file_up_to(4).request(), Request::SyncTemp { path: temp() });
    assert_eq!(missing_file_up_to(5).request(), Request::Rename { from: temp(), to: file() });
    assert_eq!(missing_file_up_to(6).request(), Request::Read { path: file() });
    assert_eq!(
        missing_file_up_to(7).request(),
        Request::Parse { contents: "workers = 8\n".to_string() }
    );
    let done = missing_file_up_to(8);
    assert!(done.finished());
    assert_eq!(done.outcome(), Some(Ok(8)));
}

#[test]
fn the_temporary_sibling_keeps_the_directory_and_the_stem() {
    let mut loader: Loader<u32> = Loader::start(PathBuf::from("/var/lib/app/settings.toml"));
    loader.advance(Reply::Exists(false));
    loader.advance(Reply::Completed);
    loader.advance(Reply::Text(String::new()));
    match loader.request() {
        Request::WriteTemp { path, contents } => {
            assert_eq!(path.as_os_str(), "/var/lib/app/settings.tmp");
            assert_eq!(contents, "");
        }
        other => panic!("unexpected request {:?}", other),
    }
}

#[test]
fn a_file_without_extension_gets_one_for_its_sibling() {
    let mut loader: Loader<u32> = Loader::start(PathBuf::from("/etc/demo/config"));
    loader.advance(Reply::Exists(false));
    loader.advance(Reply::Completed);
    loader.advance(Reply::Text("a = 1".to_string()));
    loader.advance(Reply::Completed);
    loader.advance(Reply::Completed);
    assert_eq!(
        loader.request(),
        Request::Rename {
            from: PathBuf::from("/etc/demo/config.tmp"),
            to: PathBuf::from("/etc/demo/config"),
        }
    );
}

#[test]
fn a_bare_file_name_has_the_empty_directory_above_it() {
    let mut loader: Loader<u32> = Loader::start(PathBuf::from("config.toml"));
    loader.advance(Reply::Exists(false));
    assert_eq!(loader.request(), Request::CreateDirs { dir: PathBuf::from("") });
}

#[test]
fn a_path_without_parent_goes_straight_to_the_defaults() {
    let mut loader: Loader<u32> = Loader::start(PathBuf::from(""));
    loader.advance(Reply::Exists(false));
    assert_eq!(loader.request(), Request::SerializeDefault);
}

#[test]
fn failure_to_make_directories_is_a_filesystem_error() {
    let mut loader = missing_file_up_to(1);
    loader.advance(failed("read-only file system"));
    assert!(loader.finished());
    assert_eq!(loader.request(), Request::Finished);
    assert_eq!(
        loader.outcome(),
        Some(Err(ConfigError::Io("read-only file system".to_string())))
    );
}

#[test]
fn failure_to_serialize_is_a_serialize_error() {
    let mut loader = missing_file_up_to(2);
    loader.advance(failed("values must be emitted before tables"));
    assert_eq!(
        loader.outcome(),
        Some(Err(ConfigError::Serialize("values must be emitted before tables".to_string())))
    );
}

#[test]
fn failure_to_write_the_sibling_is_a_filesystem_error() {
    let mut loader = missing_file_up_to(3);
    loader.advance(failed("no space left on device"));
    assert_eq!(
        loader.outcome(),
        Some(Err(ConfigError::Io("no space left on device".to_string())))
    );
}

#[test]
fn failure_to_sync_is_a_filesystem_error() {
    let mut loader = missing_file_up_to(4);
    loader.advance(failed("input/output error"));
    assert_eq!(loader.outcome(), Some(Err(ConfigError::Io("input/output error".to_string()))));
}

#[test]
fn failure_to_rename_is_a_filesystem_error() {
    let mut loader = missing_file_up_to(5);
    loader.advance(failed("cross-device link"));
    assert_eq!(loader.outcome(), Some(Err(ConfigError::Io("cross-device link".to_string()))));
}

#[test]
fn failure_to_read_is_a_filesystem_error() {
    let mut loader: Loader<u32> = Loader::start(file());
    loader.advance(Reply::Exists(true));
    loader.advance(failed("stream did not contain valid UTF-8"));
    assert_eq!(
        loader.outcome(),
        Some(Err(ConfigError::Io("stream did not contain valid UTF-8".to_string())))
    );
}

#[test]
fn a_bad_file_is_invalid_toml_with_its_path() {
    let mut loader: Loader<u32> = Loader::start(file());
    loader.advance(Reply::Exists(true));
    loader.advance(Reply::Text("workers = = 1".to_string()));
    loader.advance(failed("expected a value"));
    assert_eq!(
        loader.outcome(),
        Some(Err(ConfigError::InvalidToml { path: file(), source: "expected a value".to_string() }))
    );
}

#[test]
fn a_freshly_created_file_that_does_not_parse_is_invalid_toml_too() {
    let mut loader = missing_file_up_to(7);
    loader.advance(failed("missing field"));
    assert_eq!(
        loader.outcome(),
        Some(Err(ConfigError::InvalidToml { path: file(), source: "missing field".to_string() }))
    );
}

#[test]
fn a_reply_that_does_not_answer_the_request_changes_nothing() {
    let mut loader: Loader<u32> = Loader::start(file());
    loader.advance(Reply::Completed);
    loader.advance(Reply::Text("x".to_string()));
    loader.advance(Reply::Value(3));
    loader.advance(failed("nothing was asked that could fail"));
    assert_eq!(loader.request(), Request::Probe { path: file() });

    let mut syncing = missing_file_up_to(4);
    syncing.advance(Reply::Exists(true));
    syncing.advance(Reply::Text("x".to_string()));
    assert_eq!(syncing.request(), Request::SyncTemp { path: temp() });
}

#[test]
fn a_finished_load_ignores_further_replies() {
    let mut loaded = missing_file_up_to(8);
    loaded.advance(failed("late"));
    loaded.advance(Reply::Exists(false));
    assert_eq!(loaded.outcome(), Some(Ok(8)));

    let mut broken: Loader<u32> = Loader::start(file());
    broken.advance(Reply::Exists(true));
    broken.advance(failed("gone"));
    broken.advance(Reply::Value(5));
    assert_eq!(broken.outcome(), Some(Err(ConfigError::Io("gone".to_string()))));
}

#[test]
fn an_unfinished_load_has_no_outcome() {
    assert_eq!(missing_file_up_to(5).outcome(), None);
}

#[test]
fn load_starts_on_the_explicit_path() {
    let opts = TomlOptions {
        app_name: "demo".to_string(),
        config_dir: Some(PathBuf::from("/etc/demo")),
        enabled: true,
    };
    let loader: Loader<u32> = load(Some(PathBuf::from("/tmp/o.toml")), opts).unwrap();
    assert_eq!(loader.request(), Request::Probe { path: PathBuf::from("/tmp/o.toml") });
}

#[test]
fn load_starts_on_the_file_in_the_configured_directory() {
    let opts = TomlOptions {
        app_name: "demo".to_string(),
        config_dir: Some(PathBuf::from("/etc/demo")),
        enabled: true,
    };
    let loader: Loader<u32> = load(None, opts).unwrap();
    assert_eq!(loader.request(), Request::Probe { path: file() });
}

#[test]
fn load_does_not_look_at_the_switch() {
    let opts = TomlOptions {
        app_name: "demo".to_string(),
        config_dir: Some(PathBuf::from("/etc/demo")),
        enabled: false,
    };
    let loader: Loader<u32> = load(None, opts).unwrap();
    assert_eq!(loader.request(), Request::Probe { path: file() });
}

#[test]
fn reload_reads_the_captured_path_again() {
    let opts = TomlOptions {
        app_name: "demo".to_string(),
        config_dir: Some(PathBuf::from("/etc/demo")),
        enabled: true,
    };
    let captured = Some(PathBuf::from("/tmp/o.toml"));
    let begun: Option<Result<Loader<u32>, ConfigError>> = reload(&captured, &opts);
    let loader = begun.unwrap().unwrap();
    assert_eq!(loader.request(), Request::Probe { path: PathBuf::from("/tmp/o.toml") });
}

#[test]
fn reload_begins_nothing_where_the_configuration_is_off() {
    let opts = TomlOptions {
        app_name: "demo".to_string(),
        config_dir: Some(PathBuf::from("/etc/demo")),
        enabled: false,
    };
    let begun: Option<Result<Loader<u32>, ConfigError>> = reload(&None, &opts);
    assert!(begun.is_none());
}
