//! Why a file that is created is never seen half written.
//!
//! The load protocol does no I/O itself, so what it does to the disk is
//! stated over a model of the disk: which files there are, and for each
//! whether it is whole and on stable storage. The model says what each
//! request may do to the disk when it is carried out, well or badly, and
//! the laws say that, whatever happens, the configuration file is either
//! what it was or the new file in full.
//!
//! The laws hold of both machines: of a load, which begins by probing and
//! goes on to read, and of a write of the defaults on its own, which
//! begins where the file is known to be missing and ends with the rename.

use crate::config::laws::creation_replies;
use crate::config::loader::{
    beside, sibling_text, LoaderView, PhaseView, ReplyView, RequestView, NO_SIBLING,
};
use crate::config::writer::{write_after, write_wanted, written};
use crate::error::ConfigErrorView;
use crate::paths::parent_text;
use vstd::prelude::*;

verus! {

/// What is found at a path.
pub enum FileImage {
    /// A file that was cut short.
    Torn,
    /// A file with this text, of which not all may be on stable storage: a
    /// crash may still cut it short.
    Unsynced(Seq<char>),
    /// A file with this text, all of it on stable storage.
    Whole(Seq<char>),
}

/// The files on a disk, by the text of their paths.
pub struct Disk {
    pub files: Map<Seq<u8>, FileImage>,
}

impl FileImage {
    /// The same file once it is synced: what was written is then on stable
    /// storage.
    pub open spec fn synced(self) -> FileImage {
        match self {
            FileImage::Unsynced(text) => FileImage::Whole(text),
            other => other,
        }
    }
}

impl Disk {
    /// The disk after `request` has been carried out and has ended with
    /// `reply`, or has been cut off by a crash, could be `after` where it
    /// was `self` before.
    ///
    /// Writing a file leaves it unsynced where the write completed; where
    /// it did not, the file may be torn or may not have been touched.
    /// Syncing a file that completed puts it on stable storage. A rename
    /// that completed has moved the file as it was; one that did not has
    /// done nothing: there is nothing in between. No other request changes
    /// a file.
    pub open spec fn may_become(
        self,
        request: RequestView,
        reply: ReplyView<()>,
        after: Disk,
    ) -> bool {
        match request {
            RequestView::WriteTemp { path, contents } => match reply {
                ReplyView::Completed => after.files == self.files.insert(
                    path,
                    FileImage::Unsynced(contents),
                ),
                _ => after.files == self.files || after.files == self.files.insert(
                    path,
                    FileImage::Torn,
                ),
            },
            RequestView::SyncTemp { path } => match reply {
                ReplyView::Completed => self.files.contains_key(path) && after.files
                    == self.files.insert(path, self.files[path].synced()),
                _ => after.files == self.files,
            },
            RequestView::Rename { from, to } => match reply {
                ReplyView::Completed => self.files.contains_key(from) && after.files
                    == self.files.remove(from).insert(to, self.files[from]),
                _ => after.files == self.files,
            },
            _ => after.files == self.files,
        }
    }

    /// What is at `path` is what was there on `before`: the same file, or
    /// no file as before.
    pub open spec fn kept(self, before: Disk, path: Seq<u8>) -> bool {
        &&& self.files.contains_key(path) == before.files.contains_key(path)
        &&& self.files.contains_key(path) ==> self.files[path] == before.files[path]
    }

    /// There is a file at `path`, and it is `image`.
    pub open spec fn holds(self, path: Seq<u8>, image: FileImage) -> bool {
        self.files.contains_key(path) && self.files[path] == image
    }

    /// What is at `path` is what was there on `before`, or it is the text
    /// `written`, whole and on stable storage.
    pub open spec fn kept_or_whole(
        self,
        before: Disk,
        path: Seq<u8>,
        written: Option<Seq<char>>,
    ) -> bool {
        self.kept(before, path) || (written matches Some(text) && self.holds(
            path,
            FileImage::Whole(text),
        ))
    }

    /// Nothing but the file at `path` and its sibling differs from
    /// `before`.
    pub open spec fn rest_kept(self, before: Disk, path: Seq<u8>) -> bool {
        forall|other: Seq<u8>|
            other != path && sibling_text(path) != Some(other) ==> #[trigger] self.kept(
                before,
                other,
            )
    }
}

/// A reply without what it carries for the application, which the disk
/// does not depend on.
pub open spec fn plain<T>(reply: ReplyView<T>) -> ReplyView<()> {
    match reply {
        ReplyView::Exists(found) => ReplyView::Exists(found),
        ReplyView::Completed => ReplyView::Completed,
        ReplyView::Text(text) => ReplyView::Text(text),
        ReplyView::Value(_) => ReplyView::Value(()),
        ReplyView::Failed(cause) => ReplyView::Failed(cause),
    }
}

/// What is asked for in `state`: by a write of the defaults where
/// `writing`, else by a load.
pub open spec fn asked<T>(state: LoaderView<T>, writing: bool) -> RequestView {
    if writing {
        write_wanted(state)
    } else {
        state.wanted()
    }
}

/// The state that follows `state` on `reply`: of a write of the defaults
/// where `writing`, else of a load.
pub open spec fn moved<T>(state: LoaderView<T>, reply: ReplyView<T>, writing: bool) -> LoaderView<
    T,
> {
    if writing {
        write_after(state, reply)
    } else {
        state.after(reply)
    }
}

/// A load of the file at `path` that has not begun.
pub open spec fn load_begins<T>(path: Seq<u8>) -> LoaderView<T> {
    LoaderView::<T>::start(path)
}

/// A write of the defaults to the file at `path` that has not begun: the
/// state that `write_default` hands out.
pub open spec fn write_begins<T>(path: Seq<u8>) -> LoaderView<T> {
    LoaderView::<T>::start(path).after(ReplyView::Exists(false))
}

/// The state of a run after its first `moment` replies.
pub open spec fn state_at<T>(
    begin: LoaderView<T>,
    replies: Seq<ReplyView<T>>,
    writing: bool,
    moment: int,
) -> LoaderView<T>
    decreases moment,
{
    if moment <= 0 {
        begin
    } else {
        moved(state_at(begin, replies, writing, moment - 1), replies[moment - 1], writing)
    }
}

/// The text that is known to have been written once `request` has ended
/// with `reply`, where `text` was known before: the contents of a write
/// that completed, else what was known.
pub open spec fn noted(
    text: Option<Seq<char>>,
    request: RequestView,
    reply: ReplyView<()>,
) -> Option<Seq<char>> {
    match request {
        RequestView::WriteTemp { contents, .. } => if reply is Completed {
            Some(contents)
        } else {
            text
        },
        _ => text,
    }
}

/// The text that was handed to the last write that completed among the
/// first `moment` requests of a run, if there was one.
pub open spec fn text_at<T>(
    begin: LoaderView<T>,
    replies: Seq<ReplyView<T>>,
    writing: bool,
    moment: int,
) -> Option<Seq<char>>
    decreases moment,
{
    if moment <= 0 {
        None
    } else {
        noted(
            text_at(begin, replies, writing, moment - 1),
            asked(state_at(begin, replies, writing, moment - 1), writing),
            plain(replies[moment - 1]),
        )
    }
}

/// The request that was made at step `k` of a run could take the disk from
/// `disks[k]` to `disks[k + 1]`.
pub open spec fn step_allowed<T>(
    begin: LoaderView<T>,
    replies: Seq<ReplyView<T>>,
    writing: bool,
    disks: Seq<Disk>,
    k: int,
) -> bool {
    disks[k].may_become(
        asked(state_at(begin, replies, writing, k), writing),
        plain(replies[k]),
        disks[k + 1],
    )
}

/// `disks` is a history of the disk along a run: it holds the disk before
/// each request and after the last, and each request took the disk from
/// one to the next.
pub open spec fn history<T>(
    begin: LoaderView<T>,
    replies: Seq<ReplyView<T>>,
    writing: bool,
    disks: Seq<Disk>,
) -> bool {
    &&& disks.len() == replies.len() + 1
    &&& forall|k: int|
        0 <= k < replies.len() ==> #[trigger] step_allowed(begin, replies, writing, disks, k)
}

/// What holds between the state of a run and the disk at every moment.
spec fn in_step<T>(
    state: LoaderView<T>,
    first: Disk,
    now: Disk,
    text: Option<Seq<char>>,
    writing: bool,
) -> bool {
    let path = state.path;
    let kept = now.kept(first, path);
    &&& state.sound()
    &&& now.rest_kept(first, path)
    &&& match state.phase {
        PhaseView::Probing => !writing && kept,
        PhaseView::CreatingDirs(_) => kept,
        PhaseView::Serializing => kept,
        PhaseView::WritingTemp { .. } => kept,
        PhaseView::Syncing { temp } => kept && text is Some && now.holds(
            temp,
            FileImage::Unsynced(text->Some_0),
        ),
        PhaseView::Renaming { temp } => kept && text is Some && now.holds(
            temp,
            FileImage::Whole(text->Some_0),
        ),
        PhaseView::Reading => if writing {
            &&& text matches Some(c) && now.holds(path, FileImage::Whole(c))
            &&& sibling_text(path) matches Some(temp) && !now.files.contains_key(temp)
        } else {
            now.kept_or_whole(first, path, text)
        },
        PhaseView::Parsing(_) => !writing && now.kept_or_whole(first, path, text),
        PhaseView::Loaded(_) => !writing && now.kept_or_whole(first, path, text),
        PhaseView::Failed(_) => if writing {
            kept
        } else {
            now.kept_or_whole(first, path, text)
        },
    }
}

proof fn lemma_step_keeps_in_step<T>(
    state: LoaderView<T>,
    reply: ReplyView<T>,
    first: Disk,
    now: Disk,
    next: Disk,
    text: Option<Seq<char>>,
    writing: bool,
)
    requires
        in_step(state, first, now, text, writing),
        now.may_become(asked(state, writing), plain(reply), next),
    ensures
        in_step(
            moved(state, reply, writing),
            first,
            next,
            noted(text, asked(state, writing), plain(reply)),
            writing,
        ),
{
    let path = state.path;
    assert(moved(state, reply, writing).path == path);
    assert forall|other: Seq<u8>|
        other != path && sibling_text(path) != Some(other) implies #[trigger] next.kept(
        first,
        other,
    ) by {
        assert(now.kept(first, other));
    }
}

proof fn lemma_run_is_in_step<T>(
    begin: LoaderView<T>,
    replies: Seq<ReplyView<T>>,
    writing: bool,
    disks: Seq<Disk>,
    moment: int,
)
    requires
        begin == (if writing {
            write_begins::<T>(begin.path)
        } else {
            load_begins::<T>(begin.path)
        }),
        history(begin, replies, writing, disks),
        0 <= moment <= replies.len(),
    ensures
        state_at(begin, replies, writing, moment).path == begin.path,
        in_step(
            state_at(begin, replies, writing, moment),
            disks[0],
            disks[moment],
            text_at(begin, replies, writing, moment),
            writing,
        ),
    decreases moment,
{
    if moment > 0 {
        lemma_run_is_in_step(begin, replies, writing, disks, moment - 1);
        assert(step_allowed(begin, replies, writing, disks, moment - 1));
        lemma_step_keeps_in_step(
            state_at(begin, replies, writing, moment - 1),
            replies[moment - 1],
            disks[0],
            disks[moment - 1],
            disks[moment],
            text_at(begin, replies, writing, moment - 1),
            writing,
        );
    }
}

/// The state of a load after its first `moment` replies is the state
/// after the run of those replies.
pub proof fn law_state_at_is_the_run<T>(
    begin: LoaderView<T>,
    replies: Seq<ReplyView<T>>,
    moment: int,
)
    requires
        0 <= moment <= replies.len(),
    ensures
        state_at(begin, replies, false, moment) == begin.run(replies.take(moment)),
    decreases moment,
{
    if moment > 0 {
        law_state_at_is_the_run(begin, replies, moment - 1);
        assert(replies.take(moment).drop_last() =~= replies.take(moment - 1));
        assert(replies.take(moment).last() == replies[moment - 1]);
    } else {
        assert(replies.take(0) =~= Seq::<ReplyView<T>>::empty());
    }
}

/// Atomic creation. Take any load, of any file, with any replies, and any
/// history of the disk along it that the requests allow. At every moment
/// of it, and so wherever a crash or a failure ends it, the configuration
/// file is either what it was before the load, or it is a whole file on
/// stable storage that holds the text which was handed to the write. It is
/// never torn, never a file that a crash may still tear, and never another
/// text. Nothing else on the disk differs from before but the sibling.
pub proof fn law_creation_is_atomic<T>(
    path: Seq<u8>,
    replies: Seq<ReplyView<T>>,
    disks: Seq<Disk>,
    moment: int,
)
    requires
        history(load_begins::<T>(path), replies, false, disks),
        0 <= moment <= replies.len(),
    ensures
        disks[moment].kept_or_whole(
            disks[0],
            path,
            text_at(load_begins::<T>(path), replies, false, moment),
        ),
        disks[moment].rest_kept(disks[0], path),
{
    lemma_run_is_in_step(load_begins::<T>(path), replies, false, disks, moment);
}

/// Atomic writing. Take any write of the defaults, to any file, with any
/// replies, and any history of the disk along it that the requests allow.
/// Until the write is done the file is what it was before; once it is
/// done the file is whole, on stable storage, and holds the text that was
/// handed to the write, the sibling is gone, and its directory is the
/// file's. At no moment is the file anything else, and nothing else on the
/// disk differs from before but the sibling.
pub proof fn law_write_is_atomic<T>(
    path: Seq<u8>,
    replies: Seq<ReplyView<T>>,
    disks: Seq<Disk>,
    moment: int,
)
    requires
        history(write_begins::<T>(path), replies, true, disks),
        0 <= moment <= replies.len(),
    ensures
        ({
            let state = state_at(write_begins::<T>(path), replies, true, moment);
            let text = text_at(write_begins::<T>(path), replies, true, moment);
            &&& !written(state) ==> disks[moment].kept(disks[0], path)
            &&& written(state) ==> {
                &&& text matches Some(c) && disks[moment].holds(path, FileImage::Whole(c))
                &&& sibling_text(path) matches Some(temp) && beside(temp, path)
                    && !disks[moment].files.contains_key(temp)
            }
            &&& disks[moment].rest_kept(disks[0], path)
        }),
{
    lemma_run_is_in_step(write_begins::<T>(path), replies, true, disks, moment);
}

/// A write that fails leaves the file as it was: where a write of the
/// defaults has ended in a failure, whichever step it was that failed, the
/// file is what it was before, or there is no file as before.
pub proof fn law_failed_write_leaves_the_file<T>(
    path: Seq<u8>,
    replies: Seq<ReplyView<T>>,
    disks: Seq<Disk>,
    moment: int,
)
    requires
        history(write_begins::<T>(path), replies, true, disks),
        0 <= moment <= replies.len(),
        state_at(write_begins::<T>(path), replies, true, moment).phase is Failed,
    ensures
        disks[moment].kept(disks[0], path),
{
    lemma_run_is_in_step(write_begins::<T>(path), replies, true, disks, moment);
}

/// The rename moves a whole file. Whenever a run, of a load or of a write,
/// asks to rename, what it asks to move lies beside the file, is whole and
/// on stable storage, and holds the text that was handed to the write; and
/// the file has not been touched until then.
pub proof fn law_rename_moves_a_whole_file<T>(
    path: Seq<u8>,
    replies: Seq<ReplyView<T>>,
    writing: bool,
    disks: Seq<Disk>,
    moment: int,
)
    requires
        history(
            if writing {
                write_begins::<T>(path)
            } else {
                load_begins::<T>(path)
            },
            replies,
            writing,
            disks,
        ),
        0 <= moment <= replies.len(),
    ensures
        ({
            let begin = if writing {
                write_begins::<T>(path)
            } else {
                load_begins::<T>(path)
            };
            asked(state_at(begin, replies, writing, moment), writing) matches RequestView::Rename {
                from,
                to,
            } ==> {
                &&& to == path
                &&& beside(from, path)
                &&& text_at(begin, replies, writing, moment) matches Some(c) && disks[moment].holds(
                    from,
                    FileImage::Whole(c),
                )
                &&& disks[moment].kept(disks[0], path)
            }
        }),
{
    let begin = if writing {
        write_begins::<T>(path)
    } else {
        load_begins::<T>(path)
    };
    lemma_run_is_in_step(begin, replies, writing, disks, moment);
}

/// Default creation. Take a load that finds no file at its path and whose
/// every piece of work succeeds, and any history of the disk along it that
/// the requests allow. Where the file has a sibling, the file is there
/// when the load comes to read it: whole, on stable storage, and holding
/// the text of the defaults; the sibling is gone, and nothing else on the
/// disk has changed. Where the file has no sibling, the load has failed
/// and the disk is what it was.
pub proof fn law_missing_file_is_created<T>(path: Seq<u8>, defaults: Seq<char>, disks: Seq<Disk>)
    requires
        history(
            load_begins::<T>(path),
            creation_replies::<T>(parent_text(path) is Some, defaults),
            false,
            disks,
        ),
    ensures
        ({
            let replies = creation_replies::<T>(parent_text(path) is Some, defaults);
            let end = state_at(load_begins::<T>(path), replies, false, replies.len() as int);
            &&& sibling_text(path) matches Some(temp) ==> {
                &&& end.wanted() == (RequestView::Read { path })
                &&& disks.last().files == disks[0].files.remove(temp).insert(
                    path,
                    FileImage::Whole(defaults),
                )
            }
            &&& sibling_text(path) is None ==> {
                &&& end.phase == PhaseView::<T>::Failed(ConfigErrorView::Io(NO_SIBLING@))
                &&& disks.last().files == disks[0].files
            }
        }),
{
    let begin = load_begins::<T>(path);
    let replies = creation_replies::<T>(parent_text(path) is Some, defaults);
    let n = replies.len() as int;
    let dirs = if parent_text(path) is Some {
        1int
    } else {
        0int
    };
    assert(n == 5 + dirs);
    assert(state_at(begin, replies, false, 0) == begin);
    assert(state_at(begin, replies, false, 1).phase == (match parent_text(path) {
        Some(dir) => PhaseView::<T>::CreatingDirs(dir),
        None => PhaseView::<T>::Serializing,
    }));
    assert(step_allowed(begin, replies, false, disks, 0));
    if dirs == 1 {
        assert(state_at(begin, replies, false, 2).phase == PhaseView::<T>::Serializing);
        assert(step_allowed(begin, replies, false, disks, 1));
    }
    let ready = 1 + dirs;
    assert(state_at(begin, replies, false, ready).phase == PhaseView::<T>::Serializing);
    assert(step_allowed(begin, replies, false, disks, ready));
    assert(disks[ready + 1].files == disks[0].files);
    assert(replies[ready] == ReplyView::<T>::Text(defaults));
    let written = state_at(begin, replies, false, ready + 1);
    assert(written == state_at(begin, replies, false, ready).after(replies[ready]));
    assert(step_allowed(begin, replies, false, disks, ready + 1));
    let synced = state_at(begin, replies, false, ready + 2);
    assert(synced == written.after(replies[ready + 1]));
    assert(step_allowed(begin, replies, false, disks, ready + 2));
    let renamed = state_at(begin, replies, false, ready + 3);
    assert(renamed == synced.after(replies[ready + 2]));
    assert(step_allowed(begin, replies, false, disks, ready + 3));
    let end = state_at(begin, replies, false, ready + 4);
    assert(end == renamed.after(replies[ready + 3]));
    match sibling_text(path) {
        Some(temp) => {
            assert(disks[ready + 4].files =~= disks[0].files.remove(temp).insert(
                path,
                FileImage::Whole(defaults),
            ));
        },
        None => {},
    }
}

} // verus!
