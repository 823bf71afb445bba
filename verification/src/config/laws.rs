//! What holds of locating and loading the configuration, for every input.

use crate::config::loader::{
    sibling_text, spares, LoaderView, PhaseView, ReplyView, RequestView, NO_SIBLING,
};
use crate::config::options::OptionsView;
use crate::config::path::resolved_text;
use crate::error::ConfigErrorView;
use crate::paths::parent_text;
use vstd::prelude::*;

verus! {

/// An explicit path wins: whatever the options and the home directory are,
/// the file that is resolved is the explicit one. So a load and every
/// later reload that carry the same explicit path read the same file, even
/// where the options differ between them.
pub proof fn law_explicit_path_wins(
    explicit: Seq<u8>,
    opts: OptionsView,
    home: Option<Seq<u8>>,
    later_opts: OptionsView,
    later_home: Option<Seq<u8>>,
)
    ensures
        resolved_text(Some(explicit), opts, home) == Some(explicit),
        resolved_text(Some(explicit), later_opts, later_home) == resolved_text(
            Some(explicit),
            opts,
            home,
        ),
{
}

/// A load stays with its file: no run of replies changes the path.
pub proof fn law_path_is_kept<T>(state: LoaderView<T>, replies: Seq<ReplyView<T>>)
    ensures
        state.run(replies).path == state.path,
    decreases replies.len(),
{
    if replies.len() > 0 {
        law_path_is_kept(state, replies.drop_last());
    }
}

/// A load that is done stays done: further replies change nothing.
pub proof fn law_done_is_final<T>(state: LoaderView<T>, replies: Seq<ReplyView<T>>)
    requires
        state.finished(),
    ensures
        state.run(replies) == state,
    decreases replies.len(),
{
    if replies.len() > 0 {
        law_done_is_final(state, replies.drop_last());
    }
}

/// A file that does not parse is reported as `InvalidToml` with the cause,
/// and with the path of the file that was read.
pub proof fn law_bad_file_names_its_path<T>(
    path: Seq<u8>,
    contents: Seq<char>,
    cause: Seq<char>,
)
    ensures
        LoaderView::<T>::start(path).after(ReplyView::Exists(true)).after(
            ReplyView::Text(contents),
        ).wanted() == (RequestView::Parse { contents }),
        LoaderView::<T>::start(path).after(ReplyView::Exists(true)).after(
            ReplyView::Text(contents),
        ).after(ReplyView::Failed(cause)).phase == PhaseView::<T>::Failed(
            ConfigErrorView::InvalidToml { path, source: cause },
        ),
{
}

/// Whatever the replies, a load that ends in `InvalidToml` names the file
/// it was started for.
pub proof fn law_invalid_toml_names_the_resolved_path<T>(
    path: Seq<u8>,
    replies: Seq<ReplyView<T>>,
)
    ensures
        LoaderView::<T>::start(path).run(replies).phase matches PhaseView::Failed(
            ConfigErrorView::InvalidToml { path: named, .. },
        ) ==> named == path,
    decreases replies.len(),
{
    if replies.len() > 0 {
        law_invalid_toml_names_the_resolved_path(path, replies.drop_last());
        law_path_is_kept(LoaderView::<T>::start(path), replies.drop_last());
    }
}

/// A run goes reply by reply: the state after the first `k + 1` replies is
/// the state after the first `k`, taken one reply further.
pub proof fn lemma_run_step<T>(
    state: LoaderView<T>,
    replies: Seq<ReplyView<T>>,
    k: int,
)
    requires
        0 <= k < replies.len(),
    ensures
        state.run(replies.take(k + 1)) == state.run(replies.take(k)).after(replies[k]),
        state.run(replies.take(0)) == state,
{
    assert(replies.take(k + 1).drop_last() =~= replies.take(k));
    assert(replies.take(k + 1).last() == replies[k]);
    assert(replies.take(0) =~= Seq::<ReplyView<T>>::empty());
}

/// The replies of a run in which a file is found missing and is created,
/// every piece of work succeeding: up to the rename onto the file.
pub open spec fn creation_replies<T>(made_dirs: bool, defaults: Seq<char>) -> Seq<ReplyView<T>> {
    let probe = seq![ReplyView::<T>::Exists(false)];
    let dirs = if made_dirs {
        seq![ReplyView::<T>::Completed]
    } else {
        Seq::<ReplyView<T>>::empty()
    };
    probe + dirs + seq![
        ReplyView::Text(defaults),
        ReplyView::Completed,
        ReplyView::Completed,
        ReplyView::Completed,
    ]
}

/// Every load is sound: it begins so, and no reply makes it otherwise.
pub proof fn law_loads_stay_sound<T>(state: LoaderView<T>, replies: Seq<ReplyView<T>>)
    requires
        state.sound(),
    ensures
        LoaderView::<T>::start(state.path).sound(),
        state.run(replies).sound(),
    decreases replies.len(),
{
    if replies.len() > 0 {
        law_loads_stay_sound(state, replies.drop_last());
        law_path_is_kept(state, replies.drop_last());
    }
}

/// The file is reached by the rename alone. In a sound state, a request to
/// write or to sync names a path that is not the file but lies in its
/// directory, and a request to rename moves such a path onto the file. No
/// other request changes anything on the disk but directories.
pub proof fn law_only_the_rename_reaches_the_file<T>(state: LoaderView<T>)
    requires
        state.sound(),
    ensures
        spares(state.wanted(), state.path),
        match state.wanted() {
            RequestView::WriteTemp { path, .. } => path != state.path,
            RequestView::SyncTemp { path } => path != state.path,
            RequestView::Rename { from, to } => from != state.path && to == state.path,
            _ => true,
        },
{
}

/// The rename comes last: it is asked for only after the sync of the
/// sibling has completed, the sync only after the write has completed, and
/// the write only once the text of the defaults is there and the sibling
/// has been found.
pub proof fn law_write_then_sync_then_rename<T>(state: LoaderView<T>, reply: ReplyView<T>)
    ensures
        state.after(reply).phase is Renaming && !(state.phase is Renaming) ==> state.phase
            is Syncing && reply is Completed,
        state.after(reply).phase is Syncing && !(state.phase is Syncing) ==> state.phase
            is WritingTemp && reply is Completed,
        state.after(reply).phase is WritingTemp && !(state.phase is WritingTemp) ==> state.phase
            is Serializing && reply is Text && sibling_text(state.path) is Some,
{
}

/// A missing file is created from the defaults and then read like any
/// other: after the probe says that there is no file, the directory it
/// lives in is made (where the path has one) and the defaults are asked
/// for. Where the file has a sibling, their text is written to it, the
/// sibling is synced and renamed onto the file, the file is read, and what
/// was read is parsed; the load ends with the value that parsing gave.
/// Where the file has no sibling, the load fails there and asks for
/// nothing more.
pub proof fn law_missing_file_is_created_then_read<T>(
    path: Seq<u8>,
    defaults: Seq<char>,
    read: Seq<char>,
    value: T,
)
    ensures
        ({
            let probed = LoaderView::<T>::start(path).after(ReplyView::Exists(false));
            let ready = match parent_text(path) {
                Some(dir) => probed.after(ReplyView::Completed),
                None => probed,
            };
            let written = ready.after(ReplyView::Text(defaults));
            let synced = written.after(ReplyView::Completed);
            let renamed = synced.after(ReplyView::Completed);
            let created = renamed.after(ReplyView::Completed);
            let parsing = created.after(ReplyView::Text(read));
            &&& LoaderView::<T>::start(path).wanted() == (RequestView::Probe { path })
            &&& parent_text(path) matches Some(dir) ==> probed.wanted()
                == (RequestView::CreateDirs { dir })
            &&& ready.wanted() == RequestView::SerializeDefault
            &&& sibling_text(path) matches Some(temp) ==> {
                &&& written.wanted() == (RequestView::WriteTemp { path: temp, contents: defaults })
                &&& synced.wanted() == (RequestView::SyncTemp { path: temp })
                &&& renamed.wanted() == (RequestView::Rename { from: temp, to: path })
                &&& created.wanted() == (RequestView::Read { path })
                &&& parsing.wanted() == (RequestView::Parse { contents: read })
                &&& parsing.after(ReplyView::Value(value)).phase == PhaseView::Loaded(value)
            }
            &&& sibling_text(path) is None ==> {
                &&& written.phase == PhaseView::<T>::Failed(ConfigErrorView::Io(NO_SIBLING@))
                &&& written.wanted() == RequestView::Finished
            }
            &&& created == LoaderView::<T>::start(path).run(
                creation_replies(parent_text(path) is Some, defaults),
            )
        }),
{
    let start = LoaderView::<T>::start(path);
    let replies = creation_replies::<T>(parent_text(path) is Some, defaults);
    assert(replies.take(replies.len() as int) =~= replies);
    lemma_run_step(start, replies, 0);
    lemma_run_step(start, replies, 1);
    lemma_run_step(start, replies, 2);
    lemma_run_step(start, replies, 3);
    lemma_run_step(start, replies, 4);
    if parent_text(path) is Some {
        lemma_run_step(start, replies, 5);
    }
}

} // verus!
