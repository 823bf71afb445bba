//! Writing the default configuration on its own.
//!
//! This is the part of the load protocol that creates a missing file, cut
//! off where the load would go on to read: the directories, the text of
//! the defaults, the temporary sibling, its sync, the rename.

use crate::config::loader::{
    hands_out, spares, Loader, LoaderView, PhaseView, Reply, ReplyView, Request, RequestView,
};
use crate::error::ConfigError;
use crate::paths::path_text;
use std::path::PathBuf;
use vstd::prelude::*;

verus! {

/// A write of the default configuration in progress.
#[derive(Debug)]
pub struct Writer {
    steps: Loader<()>,
}

impl View for Writer {
    type V = LoaderView<()>;

    closed spec fn view(&self) -> LoaderView<()> {
        self.steps@
    }
}

/// Whether the file has been written: the state in which a load would go
/// on to read it.
pub open spec fn written<T>(state: LoaderView<T>) -> bool {
    state.phase is Reading
}

/// What is asked for in a state of a write: what the load asks for, until
/// the file is written, and then nothing.
pub open spec fn write_wanted<T>(state: LoaderView<T>) -> RequestView {
    if written(state) {
        RequestView::Finished
    } else {
        state.wanted()
    }
}

/// The state of a write that follows on `reply`: that of the load, until
/// the file is written, and then the same for ever.
pub open spec fn write_after<T>(state: LoaderView<T>, reply: ReplyView<T>) -> LoaderView<T> {
    if written(state) {
        state
    } else {
        state.after(reply)
    }
}

/// Whether `outcome` is what a write in `phase` hands out: success once
/// the file is written, the failure where there was one, and nothing
/// before that.
pub open spec fn write_hands_out(
    outcome: Option<Result<(), ConfigError>>,
    phase: PhaseView<()>,
) -> bool {
    match phase {
        PhaseView::Reading => outcome == Some(Ok::<(), ConfigError>(())),
        PhaseView::Loaded(_) => outcome == Some(Ok::<(), ConfigError>(())),
        other => hands_out(outcome, other),
    }
}

/// Begins to write the default configuration as the file at `path`: a load
/// of that file that has been told that there is no file.
pub fn write_default(path: PathBuf) -> (writer: Writer)
    ensures
        writer@ == LoaderView::<()>::start(path_text(path)).after(ReplyView::Exists(false)),
{
    let mut steps: Loader<()> = Loader::start(path);
    steps.advance(Reply::Exists(false));
    Writer { steps }
}

impl Writer {
    /// Whether the write is done, well or badly.
    pub fn finished(&self) -> (done: bool)
        ensures
            done == (written(self@) || self@.finished()),
    {
        self.steps.finished() || self.reached_read()
    }

    /// What has to be done next. Whatever it is, it leaves the file alone
    /// but for renaming its sibling onto it.
    pub fn request(&self) -> (request: Request)
        ensures
            request@ == write_wanted(self@),
            self@.sound(),
            spares(request@, self@.path),
    {
        let request = self.steps.request();
        match request {
            Request::Read { path: _ } => Request::Finished,
            other => other,
        }
    }

    /// Takes in how the last request went.
    pub fn advance(&mut self, reply: Reply<()>)
        ensures
            final(self)@ == write_after(old(self)@, reply@),
    {
        if !self.reached_read() {
            self.steps.advance(reply);
        }
    }

    /// Ends the write: success, or the failure, or nothing where the
    /// write is not done.
    pub fn outcome(self) -> (outcome: Option<Result<(), ConfigError>>)
        ensures
            write_hands_out(outcome, self@.phase),
    {
        if self.reached_read() {
            Some(Ok(()))
        } else {
            self.steps.outcome()
        }
    }

    fn reached_read(&self) -> (reached: bool)
        ensures
            reached == written(self@),
    {
        match self.steps.request() {
            Request::Read { path: _ } => true,
            _ => false,
        }
    }
}

} // verus!
