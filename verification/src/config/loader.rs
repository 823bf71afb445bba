//! The load protocol as a machine.
//!
//! Loading touches the filesystem and the serialization format, which this
//! library does not do itself. It decides: a `Loader` says what has to be
//! done next (`request`), is told how that went (`advance`), and in the end
//! holds the value that was read or the failure (`outcome`). Whoever drives
//! it does the work and nothing else.
//!
//! A file that is missing is first created from the defaults: its
//! directories are made, the defaults are turned into text, the text is
//! written to a temporary sibling, that sibling is synced, and only then
//! renamed onto the file. The sibling is tested before anything is written:
//! it is another path than the file, in the same directory. Where no such
//! path can be had, nothing is written and the load fails. The file itself
//! is never written in place.

use crate::config::options::TomlOptions;
use crate::config::path::{reports, resolve_path, resolved_text};
use crate::error::{ConfigError, ConfigErrorView};
use crate::paths::{
    opt_path_text, parent, parent_text, path_text, retyped_text, same_text, with_extension,
};
use std::path::PathBuf;
use vstd::prelude::*;

verus! {

/// The extension of the temporary sibling that a new file is written to.
pub const TEMP_EXTENSION: &'static str = "tmp";

/// The extension that is tried where the first gives no sibling, as it
/// does for a file that has that extension itself.
pub const SPARE_EXTENSION: &'static str = "new";

/// The cause that a load fails with where its file has no sibling to be
/// written through.
pub const NO_SIBLING: &'static str =
    "no temporary file can be named beside the configuration file";

/// Whether `temp` can stand in for the file at `path` while it is written:
/// it is another path, and it lies in the same directory.
pub open spec fn beside(temp: Seq<u8>, path: Seq<u8>) -> bool {
    temp != path && parent_text(temp) == parent_text(path)
}

/// The text of the temporary sibling of the file at `path`: the path with
/// the extension `tmp` where that lies beside the file, else the path with
/// the extension `new` where that does, else nothing.
pub open spec fn sibling_text(path: Seq<u8>) -> Option<Seq<u8>> {
    if beside(retyped_text(path, TEMP_EXTENSION@), path) {
        Some(retyped_text(path, TEMP_EXTENSION@))
    } else if beside(retyped_text(path, SPARE_EXTENSION@), path) {
        Some(retyped_text(path, SPARE_EXTENSION@))
    } else {
        None
    }
}

/// Whether `temp` lies beside `path`.
fn lies_beside(temp: &PathBuf, path: &PathBuf) -> (is: bool)
    ensures
        is == beside(path_text(*temp), path_text(*path)),
{
    if same_text(temp, path) {
        return false;
    }
    match parent(temp) {
        Some(above_temp) => match parent(path) {
            Some(above_path) => same_text(&above_temp, &above_path),
            None => false,
        },
        None => match parent(path) {
            Some(_) => false,
            None => true,
        },
    }
}

/// Whether `request` leaves the file at `file` alone but for renaming a
/// sibling onto it: what it writes or syncs lies beside the file, and what
/// it renames is moved from beside the file onto the file.
pub open spec fn spares(request: RequestView, file: Seq<u8>) -> bool {
    match request {
        RequestView::WriteTemp { path, .. } => beside(path, file),
        RequestView::SyncTemp { path } => beside(path, file),
        RequestView::Rename { from, to } => beside(from, file) && to == file,
        _ => true,
    }
}

/// The temporary sibling of the file at `path`, where it has one.
fn sibling(path: &PathBuf) -> (temp: Option<PathBuf>)
    ensures
        opt_path_text(temp) == sibling_text(path_text(*path)),
{
    proof {
        reveal_strlit("tmp");
        reveal_strlit("new");
    }
    let first = with_extension(path, TEMP_EXTENSION);
    if lies_beside(&first, path) {
        return Some(first);
    }
    let second = with_extension(path, SPARE_EXTENSION);
    if lies_beside(&second, path) {
        Some(second)
    } else {
        None
    }
}

/// What the driver is asked to do next.
#[derive(Debug, PartialEq, Eq)]
pub enum Request {
    /// Tell whether a file exists at `path`.
    Probe { path: PathBuf },
    /// Create `dir` and every missing directory above it.
    CreateDirs { dir: PathBuf },
    /// Turn the default configuration into human-editable text.
    SerializeDefault,
    /// Create the file at `path` and write `contents` to it.
    WriteTemp { path: PathBuf, contents: String },
    /// Flush the file written at `path` to stable storage.
    SyncTemp { path: PathBuf },
    /// Rename `from` onto `to` in one step.
    Rename { from: PathBuf, to: PathBuf },
    /// Read the file at `path` as text.
    Read { path: PathBuf },
    /// Parse `contents` as a configuration.
    Parse { contents: String },
    /// Nothing: the outcome is there.
    Finished,
}

/// The mathematical value of a `Request`.
pub enum RequestView {
    Probe { path: Seq<u8> },
    CreateDirs { dir: Seq<u8> },
    SerializeDefault,
    WriteTemp { path: Seq<u8>, contents: Seq<char> },
    SyncTemp { path: Seq<u8> },
    Rename { from: Seq<u8>, to: Seq<u8> },
    Read { path: Seq<u8> },
    Parse { contents: Seq<char> },
    Finished,
}

impl View for Request {
    type V = RequestView;

    open spec fn view(&self) -> RequestView {
        match *self {
            Request::Probe { path } => RequestView::Probe { path: path_text(path) },
            Request::CreateDirs { dir } => RequestView::CreateDirs { dir: path_text(dir) },
            Request::SerializeDefault => RequestView::SerializeDefault,
            Request::WriteTemp { path, contents } => RequestView::WriteTemp {
                path: path_text(path),
                contents: contents@,
            },
            Request::SyncTemp { path } => RequestView::SyncTemp { path: path_text(path) },
            Request::Rename { from, to } => RequestView::Rename {
                from: path_text(from),
                to: path_text(to),
            },
            Request::Read { path } => RequestView::Read { path: path_text(path) },
            Request::Parse { contents } => RequestView::Parse { contents: contents@ },
            Request::Finished => RequestView::Finished,
        }
    }
}

/// How the last request went.
#[derive(Debug)]
pub enum Reply<T> {
    /// The answer to `Probe`.
    Exists(bool),
    /// The work was done and gave nothing back.
    Completed,
    /// The text that `SerializeDefault` or `Read` gave.
    Text(String),
    /// The configuration that `Parse` gave.
    Value(T),
    /// The work failed, with the cause as text.
    Failed(String),
}

/// The mathematical value of a `Reply`.
pub enum ReplyView<T> {
    Exists(bool),
    Completed,
    Text(Seq<char>),
    Value(T),
    Failed(Seq<char>),
}

impl<T> View for Reply<T> {
    type V = ReplyView<T>;

    open spec fn view(&self) -> ReplyView<T> {
        match *self {
            Reply::Exists(found) => ReplyView::Exists(found),
            Reply::Completed => ReplyView::Completed,
            Reply::Text(text) => ReplyView::Text(text@),
            Reply::Value(value) => ReplyView::Value(value),
            Reply::Failed(cause) => ReplyView::Failed(cause@),
        }
    }
}

/// How far a load has come.
#[derive(Debug)]
pub enum Phase<T> {
    /// Asking whether the file exists.
    Probing,
    /// The file is missing: making the directory it lives in.
    CreatingDirs(PathBuf),
    /// Turning the defaults into text.
    Serializing,
    /// Writing that text to the temporary sibling.
    WritingTemp { temp: PathBuf, contents: String },
    /// Syncing the temporary sibling.
    Syncing { temp: PathBuf },
    /// Renaming the temporary sibling onto the file.
    Renaming { temp: PathBuf },
    /// Reading the file.
    Reading,
    /// Parsing what was read.
    Parsing(String),
    /// Done: the configuration that was read.
    Loaded(T),
    /// Done: the failure.
    Failed(ConfigError),
}

/// The mathematical value of a `Phase`.
pub enum PhaseView<T> {
    Probing,
    CreatingDirs(Seq<u8>),
    Serializing,
    WritingTemp { temp: Seq<u8>, contents: Seq<char> },
    Syncing { temp: Seq<u8> },
    Renaming { temp: Seq<u8> },
    Reading,
    Parsing(Seq<char>),
    Loaded(T),
    Failed(ConfigErrorView),
}

impl<T> View for Phase<T> {
    type V = PhaseView<T>;

    open spec fn view(&self) -> PhaseView<T> {
        match *self {
            Phase::Probing => PhaseView::Probing,
            Phase::CreatingDirs(dir) => PhaseView::CreatingDirs(path_text(dir)),
            Phase::Serializing => PhaseView::Serializing,
            Phase::WritingTemp { temp, contents } => PhaseView::WritingTemp {
                temp: path_text(temp),
                contents: contents@,
            },
            Phase::Syncing { temp } => PhaseView::Syncing { temp: path_text(temp) },
            Phase::Renaming { temp } => PhaseView::Renaming { temp: path_text(temp) },
            Phase::Reading => PhaseView::Reading,
            Phase::Parsing(contents) => PhaseView::Parsing(contents@),
            Phase::Loaded(value) => PhaseView::Loaded(value),
            Phase::Failed(error) => PhaseView::Failed(error@),
        }
    }
}

/// A load in progress: the file it is about, and how far it has come.
#[derive(Debug)]
pub struct Loader<T> {
    path: PathBuf,
    phase: Phase<T>,
}

/// The mathematical value of a `Loader`.
pub struct LoaderView<T> {
    pub path: Seq<u8>,
    pub phase: PhaseView<T>,
}

impl<T> LoaderView<T> {
    /// A load of the file at `path` that has not begun.
    pub open spec fn start(path: Seq<u8>) -> LoaderView<T> {
        LoaderView { path, phase: PhaseView::Probing }
    }

    /// What is asked for in this state.
    pub open spec fn wanted(self) -> RequestView {
        match self.phase {
            PhaseView::Probing => RequestView::Probe { path: self.path },
            PhaseView::CreatingDirs(dir) => RequestView::CreateDirs { dir },
            PhaseView::Serializing => RequestView::SerializeDefault,
            PhaseView::WritingTemp { temp, contents } => RequestView::WriteTemp {
                path: temp,
                contents,
            },
            PhaseView::Syncing { temp } => RequestView::SyncTemp { path: temp },
            PhaseView::Renaming { temp } => RequestView::Rename { from: temp, to: self.path },
            PhaseView::Reading => RequestView::Read { path: self.path },
            PhaseView::Parsing(contents) => RequestView::Parse { contents },
            PhaseView::Loaded(_) => RequestView::Finished,
            PhaseView::Failed(_) => RequestView::Finished,
        }
    }

    /// The phase that follows on `reply`. A failure is classed by the work
    /// that failed: filesystem work gives `Io`, turning the defaults into
    /// text gives `Serialize`, parsing gives `InvalidToml` with the file's
    /// path. Where the text of the defaults is there but the file has no
    /// sibling to be written through, the load fails with `Io` and the
    /// cause `NO_SIBLING`, before anything is written. A reply that does
    /// not answer what was asked changes nothing, and neither does any
    /// reply once the load is done.
    pub open spec fn next_phase(self, reply: ReplyView<T>) -> PhaseView<T> {
        match self.phase {
            PhaseView::Probing => match reply {
                ReplyView::Exists(true) => PhaseView::Reading,
                ReplyView::Exists(false) => match parent_text(self.path) {
                    Some(dir) => PhaseView::CreatingDirs(dir),
                    None => PhaseView::Serializing,
                },
                _ => self.phase,
            },
            PhaseView::CreatingDirs(_) => match reply {
                ReplyView::Completed => PhaseView::Serializing,
                ReplyView::Failed(cause) => PhaseView::Failed(ConfigErrorView::Io(cause)),
                _ => self.phase,
            },
            PhaseView::Serializing => match reply {
                ReplyView::Text(text) => match sibling_text(self.path) {
                    Some(temp) => PhaseView::WritingTemp { temp, contents: text },
                    None => PhaseView::Failed(ConfigErrorView::Io(NO_SIBLING@)),
                },
                ReplyView::Failed(cause) => PhaseView::Failed(ConfigErrorView::Serialize(cause)),
                _ => self.phase,
            },
            PhaseView::WritingTemp { temp, .. } => match reply {
                ReplyView::Completed => PhaseView::Syncing { temp },
                ReplyView::Failed(cause) => PhaseView::Failed(ConfigErrorView::Io(cause)),
                _ => self.phase,
            },
            PhaseView::Syncing { temp } => match reply {
                ReplyView::Completed => PhaseView::Renaming { temp },
                ReplyView::Failed(cause) => PhaseView::Failed(ConfigErrorView::Io(cause)),
                _ => self.phase,
            },
            PhaseView::Renaming { .. } => match reply {
                ReplyView::Completed => PhaseView::Reading,
                ReplyView::Failed(cause) => PhaseView::Failed(ConfigErrorView::Io(cause)),
                _ => self.phase,
            },
            PhaseView::Reading => match reply {
                ReplyView::Text(text) => PhaseView::Parsing(text),
                ReplyView::Failed(cause) => PhaseView::Failed(ConfigErrorView::Io(cause)),
                _ => self.phase,
            },
            PhaseView::Parsing(_) => match reply {
                ReplyView::Value(value) => PhaseView::Loaded(value),
                ReplyView::Failed(cause) => PhaseView::Failed(
                    ConfigErrorView::InvalidToml { path: self.path, source: cause },
                ),
                _ => self.phase,
            },
            PhaseView::Loaded(_) => self.phase,
            PhaseView::Failed(_) => self.phase,
        }
    }

    /// The state that follows on `reply`: the same file, in the next phase.
    pub open spec fn after(self, reply: ReplyView<T>) -> LoaderView<T> {
        LoaderView { path: self.path, phase: self.next_phase(reply) }
    }

    /// Whether the load is done, well or badly.
    pub open spec fn finished(self) -> bool {
        self.phase is Loaded || self.phase is Failed
    }

    /// Whether the temporary file of this state, where it has one, is the
    /// sibling of its file. Every state of a `Loader` is sound.
    pub open spec fn sound(self) -> bool {
        match self.phase {
            PhaseView::WritingTemp { temp, .. } => sibling_text(self.path) == Some(temp),
            PhaseView::Syncing { temp } => sibling_text(self.path) == Some(temp),
            PhaseView::Renaming { temp } => sibling_text(self.path) == Some(temp),
            _ => true,
        }
    }

    /// The state after a run of replies, the first of them first.
    pub open spec fn run(self, replies: Seq<ReplyView<T>>) -> LoaderView<T>
        decreases replies.len(),
    {
        if replies.len() == 0 {
            self
        } else {
            self.run(replies.drop_last()).after(replies.last())
        }
    }
}

impl<T> View for Loader<T> {
    type V = LoaderView<T>;

    closed spec fn view(&self) -> LoaderView<T> {
        LoaderView { path: path_text(self.path), phase: self.phase@ }
    }
}

/// Whether `outcome` is what a finished load in `phase` hands out.
pub open spec fn hands_out<T>(
    outcome: Option<Result<T, ConfigError>>,
    phase: PhaseView<T>,
) -> bool {
    match phase {
        PhaseView::Loaded(value) => outcome == Some(Ok::<T, ConfigError>(value)),
        PhaseView::Failed(error) => outcome is Some && outcome->Some_0 is Err
            && outcome->Some_0->Err_0@ == error,
        _ => outcome is None,
    }
}

impl<T> Loader<T> {
    #[verifier::type_invariant]
    spec fn holds_a_sibling(&self) -> bool {
        self@.sound()
    }

    /// A load of the file at `path` that has not begun.
    pub fn start(path: PathBuf) -> (loader: Loader<T>)
        ensures
            loader@ == LoaderView::<T>::start(path_text(path)),
    {
        Loader { path, phase: Phase::Probing }
    }

    /// The file this load is about.
    pub fn path(&self) -> (path: &PathBuf)
        ensures
            path_text(*path) == self@.path,
    {
        &self.path
    }

    /// Whether the load is done, well or badly.
    pub fn finished(&self) -> (done: bool)
        ensures
            done == self@.finished(),
    {
        match &self.phase {
            Phase::Loaded(_) => true,
            Phase::Failed(_) => true,
            _ => false,
        }
    }

    /// What has to be done next. Whatever it is, it leaves the file alone
    /// but for renaming its sibling onto it.
    pub fn request(&self) -> (request: Request)
        ensures
            request@ == self@.wanted(),
            self@.sound(),
            spares(request@, self@.path),
    {
        proof {
            use_type_invariant(self);
        }
        match &self.phase {
            Phase::Probing => Request::Probe { path: self.path.clone() },
            Phase::CreatingDirs(dir) => Request::CreateDirs { dir: dir.clone() },
            Phase::Serializing => Request::SerializeDefault,
            Phase::WritingTemp { temp, contents } => Request::WriteTemp {
                path: temp.clone(),
                contents: contents.clone(),
            },
            Phase::Syncing { temp } => Request::SyncTemp { path: temp.clone() },
            Phase::Renaming { temp } => Request::Rename {
                from: temp.clone(),
                to: self.path.clone(),
            },
            Phase::Reading => Request::Read { path: self.path.clone() },
            Phase::Parsing(contents) => Request::Parse { contents: contents.clone() },
            Phase::Loaded(_) => Request::Finished,
            Phase::Failed(_) => Request::Finished,
        }
    }

    /// Takes in how the last request went.
    pub fn advance(&mut self, reply: Reply<T>)
        ensures
            final(self)@ == old(self)@.after(reply@),
            final(self)@.sound(),
    {
        proof {
            use_type_invariant(&*self);
        }
        let next: Option<Phase<T>> = match &self.phase {
            Phase::Probing => match reply {
                Reply::Exists(true) => Some(Phase::Reading),
                Reply::Exists(false) => match parent(&self.path) {
                    Some(dir) => Some(Phase::CreatingDirs(dir)),
                    None => Some(Phase::Serializing),
                },
                _ => None,
            },
            Phase::CreatingDirs(_) => match reply {
                Reply::Completed => Some(Phase::Serializing),
                Reply::Failed(cause) => Some(Phase::Failed(ConfigError::Io(cause))),
                _ => None,
            },
            Phase::Serializing => match reply {
                Reply::Text(text) => match sibling(&self.path) {
                    Some(temp) => Some(Phase::WritingTemp { temp, contents: text }),
                    None => Some(Phase::Failed(ConfigError::Io(NO_SIBLING.to_owned()))),
                },
                Reply::Failed(cause) => Some(Phase::Failed(ConfigError::Serialize(cause))),
                _ => None,
            },
            Phase::WritingTemp { temp, contents: _ } => match reply {
                Reply::Completed => Some(Phase::Syncing { temp: temp.clone() }),
                Reply::Failed(cause) => Some(Phase::Failed(ConfigError::Io(cause))),
                _ => None,
            },
            Phase::Syncing { temp } => match reply {
                Reply::Completed => Some(Phase::Renaming { temp: temp.clone() }),
                Reply::Failed(cause) => Some(Phase::Failed(ConfigError::Io(cause))),
                _ => None,
            },
            Phase::Renaming { temp: _ } => match reply {
                Reply::Completed => Some(Phase::Reading),
                Reply::Failed(cause) => Some(Phase::Failed(ConfigError::Io(cause))),
                _ => None,
            },
            Phase::Reading => match reply {
                Reply::Text(text) => Some(Phase::Parsing(text)),
                Reply::Failed(cause) => Some(Phase::Failed(ConfigError::Io(cause))),
                _ => None,
            },
            Phase::Parsing(_) => match reply {
                Reply::Value(value) => Some(Phase::Loaded(value)),
                Reply::Failed(cause) => Some(
                    Phase::Failed(
                        ConfigError::InvalidToml { path: self.path.clone(), source: cause },
                    ),
                ),
                _ => None,
            },
            Phase::Loaded(_) => None,
            Phase::Failed(_) => None,
        };
        match next {
            Some(phase) => {
                self.phase = phase;
            },
            None => {},
        }
    }

    /// Ends the load: the configuration that was read, or the failure, or
    /// nothing where the load is not done.
    pub fn outcome(self) -> (outcome: Option<Result<T, ConfigError>>)
        ensures
            hands_out(outcome, self@.phase),
    {
        match self.phase {
            Phase::Loaded(value) => Some(Ok(value)),
            Phase::Failed(error) => Some(Err(error)),
            _ => None,
        }
    }
}

/// Whether `begun` is what beginning a load of the location `text` gives:
/// a load of that file that has not begun, or `ConfigDirNotFound` where
/// there is no location.
pub open spec fn begins<T>(begun: Result<Loader<T>, ConfigError>, text: Option<Seq<u8>>) -> bool {
    match text {
        Some(t) => begun is Ok && begun->Ok_0@ == LoaderView::<T>::start(t),
        None => begun is Err && begun->Err_0@ == ConfigErrorView::ConfigDirNotFound,
    }
}

/// Begins to load the configuration: resolves the file, an explicit path
/// before any default, and hands out the load of that file. The home
/// directory is asked for only where neither an explicit path nor a
/// directory is given; the location is then the one that `resolved_text`
/// gives for some answer.
pub fn load<T>(cli_path: Option<PathBuf>, opts: TomlOptions) -> (begun: Result<
    Loader<T>,
    ConfigError,
>)
    ensures
        cli_path is Some || opts.config_dir is Some ==> begins(
            begun,
            resolved_text(opt_path_text(cli_path), opts@, None),
        ),
        exists|home: Option<Seq<u8>>|
            begins(begun, #[trigger] resolved_text(opt_path_text(cli_path), opts@, home)),
{
    let ghost cli_text = opt_path_text(cli_path);
    match resolve_path(cli_path, &opts) {
        Ok(path) => {
            let loader = Loader::start(path);
            proof {
                let home = choose|home: Option<Seq<u8>>|
                    reports(
                        Ok::<PathBuf, ConfigError>(path),
                        #[trigger] resolved_text(cli_text, opts@, home),
                    );
                assert(begins(
                    Ok::<Loader<T>, ConfigError>(loader),
                    resolved_text(cli_text, opts@, home),
                ));
            }
            Ok(loader)
        },
        Err(error) => {
            proof {
                let home = choose|home: Option<Seq<u8>>|
                    reports(
                        Err::<PathBuf, ConfigError>(error),
                        #[trigger] resolved_text(cli_text, opts@, home),
                    );
                assert(begins(
                    Err::<Loader<T>, ConfigError>(error),
                    resolved_text(cli_text, opts@, home),
                ));
            }
            Err(error)
        },
    }
}

/// Begins to load the configuration again, from the path and options that
/// were captured when the run began. Where the configuration is switched
/// off there is nothing to load, and nothing is begun.
pub fn reload<T>(current_path: &Option<PathBuf>, current_opts: &TomlOptions) -> (begun: Option<
    Result<Loader<T>, ConfigError>,
>)
    ensures
        begun is Some <==> current_opts.enabled,
        current_opts.enabled && (current_path is Some || current_opts.config_dir is Some)
            ==> begins(
            begun->Some_0,
            resolved_text(opt_path_text(*current_path), current_opts@, None),
        ),
        current_opts.enabled ==> exists|home: Option<Seq<u8>>|
            begins(
                begun->Some_0,
                #[trigger] resolved_text(opt_path_text(*current_path), current_opts@, home),
            ),
{
    if !current_opts.enabled {
        return None;
    }
    let cli_path = match current_path {
        Some(path) => Some(path.clone()),
        None => None,
    };
    Some(load(cli_path, current_opts.clone()))
}

} // verus!
