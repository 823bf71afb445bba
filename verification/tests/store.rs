use app_base::config::loader::NO_SIBLING;
use app_base::config::{load, Loader, Reply, Request, TomlOptions};
use app_base::error::ConfigError;
use std::collections::HashMap;
use std::path::PathBuf;
use toml::{Table, Value};

/// A disk in memory: the files by path, and the directories that were made.
struct Disk {
    files: HashMap<PathBuf, String>,
    dirs: Vec<PathBuf>,
    steps: usize,
}

impl Disk {
    fn empty() -> Disk {
        Disk { files: HashMap::new(), dirs: Vec::new(), steps: 0 }
    }

    /// Does what one request asks for, on this disk.
    fn perform(&mut self, request: Request, defaults: &Table) -> Reply<Table> {
        self.steps += 1;
        match request {
            Request::Probe { path } => Reply::Exists(self.files.contains_key(&path)),
            Request::CreateDirs { dir } => {
                self.dirs.push(dir);
                Reply::Completed
            }
            Request::SerializeDefault => match toml::to_string_pretty(defaults) {
                Ok(text) => Reply::Text(text),
                Err(err) => Reply::Failed(err.to_string()),
            },
            Request::WriteTemp { path, contents } => {
                self.files.insert(path, contents);
                Reply::Completed
            }
            Request::SyncTemp { path } => {
                if self.files.contains_key(&path) {
                    Reply::Completed
                } else {
                    Reply::Failed("no such file".to_string())
                }
            }
            Request::Rename { from, to } => match self.files.remove(&from) {
                Some(text) => {
                    self.files.insert(to, text);
                    Reply::Completed
                }
                None => Reply::Failed("no such file".to_string()),
            },
            Request::Read { path } => match self.files.get(&path) {
                Some(text) => Reply::Text(text.clone()),
                None => Reply::Failed("no such file".to_string()),
            },
            Request::Parse { contents } => match toml::from_str::<Table>(&contents) {
                Ok(value) => Reply::Value(value),
                Err(err) => Reply::Failed(err.to_string()),
            },
            Request::Finished => Reply::Completed,
        }
    }

    /// Carries a load through, for at most `limit` requests.
    fn drive(
        &mut self,
        mut loader: Loader<Table>,
        defaults: &Table,
        limit: usize,
    ) -> Option<Result<Table, ConfigError>> {
        let mut done = 0;
        while !loader.finished() && done < limit {
            let reply = self.perform(loader.request(), defaults);
            loader.advance(reply);
            done += 1;
        }
        loader.outcome()
    }
}

fn defaults() -> Table {
    let mut server = Table::new();
    server.insert("host".to_string(), Value::String("localhost".to_string()));
    server.insert("workers".to_string(), Value::Integer(8));
    let mut table = Table::new();
    table.insert("verbose".to_string(), Value::Boolean(false));
    table.insert("server".to_string(), Value::Table(server));
    table
}

fn options() -> TomlOptions {
    TomlOptions {
        app_name: "demo".to_string(),
        config_dir: Some(PathBuf::from("/etc/demo")),
        enabled: true,
    }
}

fn file() -> PathBuf {
    PathBuf::from("/etc/demo/config.toml")
}

#[test]
fn loading_a_missing_file_creates_it_with_the_defaults() {
    let mut disk = Disk::empty();
    let loaded = disk.drive(load(None, options()).unwrap(), &defaults(), usize::MAX);
    assert_eq!(loaded, Some(Ok(defaults())));
    assert_eq!(disk.dirs, vec![PathBuf::from("/etc/demo")]);
    assert_eq!(disk.files.len(), 1);
    assert_eq!(disk.files[&file()], toml::to_string_pretty(&defaults()).unwrap());
    assert_eq!(disk.steps, 8);
}

#[test]
fn a_second_load_reads_what_the_first_created() {
    let mut disk = Disk::empty();
    disk.drive(load(None, options()).unwrap(), &defaults(), usize::MAX);
    let before = disk.files[&file()].clone();
    disk.steps = 0;
    let again = disk.drive(load(None, options()).unwrap(), &Table::new(), usize::MAX);
    assert_eq!(again, Some(Ok(defaults())));
    assert_eq!(disk.files[&file()], before);
    assert_eq!(disk.steps, 3);
}

#[test]
fn the_default_text_parses_back_to_the_defaults() {
    let text = toml::to_string_pretty(&defaults()).unwrap();
    let mut loader: Loader<Table> = Loader::start(file());
    loader.advance(Reply::Exists(true));
    loader.advance(Reply::Text(text.clone()));
    assert_eq!(loader.request(), Request::Parse { contents: text.clone() });
    loader.advance(match toml::from_str::<Table>(&text) {
        Ok(value) => Reply::Value(value),
        Err(err) => Reply::Failed(err.to_string()),
    });
    assert_eq!(loader.outcome(), Some(Ok(defaults())));
}

#[test]
fn an_existing_file_is_never_written() {
    let mut disk = Disk::empty();
    disk.files.insert(file(), "verbose = true\n".to_string());
    let loaded = disk.drive(load(None, options()).unwrap(), &defaults(), usize::MAX);
    let mut expected = Table::new();
    expected.insert("verbose".to_string(), Value::Boolean(true));
    assert_eq!(loaded, Some(Ok(expected)));
    assert_eq!(disk.files.len(), 1);
    assert_eq!(disk.files[&file()], "verbose = true\n");
    assert!(disk.dirs.is_empty());
}

#[test]
fn a_file_left_out_reverts_to_what_parsing_gives_not_to_the_old_value() {
    let mut disk = Disk::empty();
    disk.files.insert(file(), "".to_string());
    let loaded = disk.drive(load(None, options()).unwrap(), &defaults(), usize::MAX);
    assert_eq!(loaded, Some(Ok(Table::new())));
}

#[test]
fn a_run_cut_short_never_leaves_half_a_file() {
    let whole = toml::to_string_pretty(&defaults()).unwrap();
    for limit in 0..=8 {
        let mut disk = Disk::empty();
        disk.drive(load(None, options()).unwrap(), &defaults(), limit);
        match disk.files.get(&file()) {
            None => assert!(limit < 6),
            Some(text) => {
                assert!(limit >= 6);
                assert_eq!(text, &whole);
            }
        }
    }
}

#[test]
fn a_run_cut_short_leaves_an_old_file_as_it_was() {
    for limit in 0..=3 {
        let mut disk = Disk::empty();
        disk.files.insert(file(), "verbose = true\n".to_string());
        disk.drive(load(None, options()).unwrap(), &defaults(), limit);
        assert_eq!(disk.files[&file()], "verbose = true\n");
        assert_eq!(disk.files.len(), 1);
    }
}

#[test]
fn a_syntactically_bad_file_is_invalid_toml_with_the_resolved_path() {
    let mut disk = Disk::empty();
    disk.files.insert(file(), "verbose = = true\n".to_string());
    let loaded = disk.drive(load(None, options()).unwrap(), &defaults(), usize::MAX);
    match loaded {
        Some(Err(ConfigError::InvalidToml { path, source })) => {
            assert_eq!(path, file());
            assert!(!source.is_empty());
            assert_eq!(disk.files[&file()], "verbose = = true\n");
        }
        other => panic!("unexpected outcome {:?}", other),
    }
}

#[test]
fn a_bad_file_at_an_explicit_path_is_reported_with_that_path() {
    let explicit = PathBuf::from("/tmp/explicit.toml");
    let mut disk = Disk::empty();
    disk.files.insert(explicit.clone(), "[server\n".to_string());
    let loader = load(Some(explicit.clone()), options()).unwrap();
    let loaded = disk.drive(loader, &defaults(), usize::MAX);
    match loaded {
        Some(Err(error)) => {
            assert!(matches!(&error, ConfigError::InvalidToml { path, .. } if path == &explicit));
            let message = error.message();
            assert!(message.starts_with("invalid TOML in config file /tmp/explicit.toml\n"));
        }
        other => panic!("unexpected outcome {:?}", other),
    }
}

#[test]
fn an_explicit_path_is_created_where_it_is_missing() {
    let explicit = PathBuf::from("/tmp/explicit.toml");
    let mut disk = Disk::empty();
    let loader = load(Some(explicit.clone()), options()).unwrap();
    let loaded = disk.drive(loader, &defaults(), usize::MAX);
    assert_eq!(loaded, Some(Ok(defaults())));
    assert!(disk.files.contains_key(&explicit));
    assert!(!disk.files.contains_key(&file()));
    assert_eq!(disk.dirs, vec![PathBuf::from("/tmp")]);
}

#[test]
fn a_file_named_like_the_sibling_is_not_written_in_place() {
    let explicit = PathBuf::from("/etc/demo/settings.tmp");
    let whole = toml::to_string_pretty(&defaults()).unwrap();
    for limit in 0..=8 {
        let mut disk = Disk::empty();
        let loader = load(Some(explicit.clone()), options()).unwrap();
        disk.drive(loader, &defaults(), limit);
        match disk.files.get(&explicit) {
            None => assert!(limit < 6),
            Some(text) => {
                assert!(limit >= 6);
                assert_eq!(text, &whole);
            }
        }
    }
}

#[test]
fn a_file_without_a_name_cannot_be_created() {
    let mut disk = Disk::empty();
    let loader = load(Some(PathBuf::from("")), options()).unwrap();
    let loaded = disk.drive(loader, &defaults(), usize::MAX);
    assert_eq!(loaded, Some(Err(ConfigError::Io(NO_SIBLING.to_string()))));
    assert!(disk.files.is_empty());
}
