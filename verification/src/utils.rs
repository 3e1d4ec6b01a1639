//! Key records, and the directories that are removed when work is done.

use vstd::prelude::*;
use crate::error::{Error, ErrorView, Missing};
use crate::path::{join, parent, path_join, path_parent};
use crate::text::views;
use crate::ticket::{TitleKey, TitleKeyView};

verus! {

/// `lines`, each followed by a line feed.
pub open spec fn key_record(lines: Seq<Seq<char>>) -> Seq<char>
    decreases lines.len(),
{
    if lines.len() == 0 {
        Seq::empty()
    } else {
        key_record(lines.drop_last()) + lines.last() + seq!['\n']
    }
}

/// `lines` with a line feed between one and the next.
pub open spec fn joined(lines: Seq<Seq<char>>) -> Seq<char>
    decreases lines.len(),
{
    if lines.len() == 0 {
        Seq::empty()
    } else if lines.len() == 1 {
        lines[0]
    } else {
        joined(lines.drop_last()) + seq!['\n'] + lines.last()
    }
}

/// The textual forms of `keys`.
pub open spec fn key_texts(keys: Seq<TitleKeyView>) -> Seq<Seq<char>> {
    Seq::new(keys.len(), |i: int| keys[i].text())
}

/// The content of the key file that holds `keys`: one line for each, in
/// their order. The file is written anew each time, so this is all of it.
pub fn store_titlekeys(keys: &Vec<TitleKey>) -> (content: String)
    ensures
        content@ == key_record(key_texts(views(keys@))),
{
    let mut content = String::new();
    let mut i: usize = 0;
    while i < keys.len()
        invariant
            i <= keys.len(),
            content@ == key_record(key_texts(views(keys@)).take(i as int)),
        decreases keys.len() - i,
    {
        let line = keys[i].to_string();
        content.append(line.as_str());
        content.append("\n");
        proof {
            reveal_strlit("\n");
            assert("\n"@ =~= seq!['\n']);
            let all = key_texts(views(keys@));
            assert(all.take(i + 1).drop_last() =~= all.take(i as int));
            assert(all.take(i + 1).last() == keys[i as int]@.text());
        }
        i = i + 1;
    }
    assert(key_texts(views(keys@)).take(keys.len() as int) =~= key_texts(views(keys@)));
    content
}

/// How the removal of one directory, or of one file, ended.
#[derive(Debug, PartialEq, Eq)]
pub enum Removal {
    /// It was there and is gone.
    Removed,
    /// It was not there in the first place.
    Absent,
    /// It could not be removed; the message says why.
    Failed(String),
}

/// The mathematical value of a [`Removal`].
pub enum RemovalView {
    Removed,
    Absent,
    Failed(Seq<char>),
}

impl View for Removal {
    type V = RemovalView;

    open spec fn view(&self) -> RemovalView {
        match *self {
            Removal::Removed => RemovalView::Removed,
            Removal::Absent => RemovalView::Absent,
            Removal::Failed(message) => RemovalView::Failed(message@),
        }
    }
}

/// The messages of the removals among `outcomes` that failed, in their
/// order. A directory that was absent is no failure.
pub open spec fn failures(outcomes: Seq<RemovalView>) -> Seq<Seq<char>>
    decreases outcomes.len(),
{
    if outcomes.len() == 0 {
        Seq::empty()
    } else {
        match outcomes.last() {
            RemovalView::Failed(message) => failures(outcomes.drop_last()).push(message),
            _ => failures(outcomes.drop_last()),
        }
    }
}

/// How the closing of a guard over `dirs` ends, given how the removal of
/// each of them ended: well where none failed, with all the failures in one
/// error otherwise. Outcomes that do not match the directories one for one
/// show that not every directory was attempted.
pub open spec fn closing(dirs: Seq<Seq<char>>, outcomes: Seq<RemovalView>) -> Result<
    (),
    ErrorView,
> {
    if outcomes.len() != dirs.len() {
        Err(ErrorView::InternalInvariant)
    } else if failures(outcomes).len() == 0 {
        Ok(())
    } else {
        Err(ErrorView::Aggregate(joined(failures(outcomes))))
    }
}

/// Whether none of `outcomes` is a failure.
pub open spec fn none_failed(outcomes: Seq<RemovalView>) -> bool {
    forall|i: int| 0 <= i < outcomes.len() ==> !(#[trigger] outcomes[i] is Failed)
}

/// There are no failures to tell of exactly where no removal failed.
pub proof fn lemma_failures_empty(outcomes: Seq<RemovalView>)
    ensures
        failures(outcomes).len() == 0 <==> none_failed(outcomes),
        failures(outcomes).len() <= outcomes.len(),
    decreases outcomes.len(),
{
    if outcomes.len() > 0 {
        lemma_failures_empty(outcomes.drop_last());
        if none_failed(outcomes) {
            assert forall|i: int| 0 <= i < outcomes.drop_last().len() implies !(
            #[trigger] outcomes.drop_last()[i] is Failed) by {
                assert(outcomes.drop_last()[i] == outcomes[i]);
            }
            assert(!(outcomes[outcomes.len() - 1] is Failed));
        } else if !(outcomes.last() is Failed) {
            let i = choose|i: int| 0 <= i < outcomes.len() && #[trigger] outcomes[i] is Failed;
            assert(outcomes.drop_last()[i] is Failed);
        }
    }
}

/// A guard closes well exactly where the removal of each of its
/// directories was attempted and none failed; a directory that was
/// already absent does not stand in the way. Where any removal failed,
/// the guard closes with all the failures in one error, and that error
/// too is only given where the removal of every directory was attempted.
pub proof fn lemma_closing(dirs: Seq<Seq<char>>, outcomes: Seq<RemovalView>)
    ensures
        closing(dirs, outcomes) is Ok <==> outcomes.len() == dirs.len() && none_failed(outcomes),
        (closing(dirs, outcomes) matches Err(ErrorView::Aggregate(text))) <==> outcomes.len()
            == dirs.len() && !none_failed(outcomes),
        closing(dirs, outcomes) matches Err(ErrorView::Aggregate(text)) ==> text == joined(
            failures(outcomes),
        ),
{
    lemma_failures_empty(outcomes);
}

/// One failure among the removals is the whole text of the error.
pub proof fn lemma_single_failure(outcomes: Seq<RemovalView>, at: int, message: Seq<char>)
    requires
        0 <= at < outcomes.len(),
        outcomes[at] == RemovalView::Failed(message),
        forall|i: int| 0 <= i < outcomes.len() && i != at ==> !(#[trigger] outcomes[i] is Failed),
    ensures
        failures(outcomes) == seq![message],
        joined(failures(outcomes)) == message,
    decreases outcomes.len(),
{
    let rest = outcomes.drop_last();
    if at == outcomes.len() - 1 {
        assert(none_failed(rest)) by {
            assert forall|i: int| 0 <= i < rest.len() implies !(#[trigger] rest[i] is Failed) by {
                assert(rest[i] == outcomes[i]);
            }
        }
        lemma_failures_empty(rest);
        assert(failures(rest) =~= Seq::<Seq<char>>::empty());
        assert(failures(outcomes) =~= seq![message]);
    } else {
        assert(rest[at] == outcomes[at]);
        assert forall|i: int| 0 <= i < rest.len() && i != at implies !(#[trigger] rest[i] is Failed) by {
            assert(rest[i] == outcomes[i]);
        }
        lemma_single_failure(rest, at, message);
        assert(!(outcomes[outcomes.len() - 1] is Failed));
    }
}

/// Forgets the file that holds the title keys, given how its removal
/// ended. A file that was not there is as good as one that was removed.
pub fn clear_titlekeys(outcome: &Removal) -> (res: Result<(), Error>)
    ensures
        outcome@ is Failed ==> res is Err && res->Err_0@ == ErrorView::Io,
        !(outcome@ is Failed) ==> res is Ok,
{
    match outcome {
        Removal::Failed(_) => Err(Error::Io),
        _ => Ok(()),
    }
}

/// Directories that are to be removed when the work that needs them is
/// done.
///
/// The guard does not touch the file system. Whoever holds it removes each
/// directory, whether or not the removal of another failed, and closes the
/// guard with the outcomes.
#[derive(Debug, PartialEq, Eq)]
pub struct CleanupDirsOnDrop {
    dirs: Vec<String>,
}

impl View for CleanupDirsOnDrop {
    type V = Seq<Seq<char>>;

    closed spec fn view(&self) -> Seq<Seq<char>> {
        views(self.dirs@)
    }
}

impl Default for CleanupDirsOnDrop {
    fn default() -> (guard: CleanupDirsOnDrop)
        ensures
            guard@ == Seq::<Seq<char>>::empty(),
    {
        let guard = CleanupDirsOnDrop { dirs: Vec::new() };
        assert(guard@ =~= Seq::<Seq<char>>::empty());
        guard
    }
}

impl Clone for CleanupDirsOnDrop {
    fn clone(&self) -> (copy: CleanupDirsOnDrop)
        ensures
            copy@ == self@,
    {
        let mut dirs: Vec<String> = Vec::new();
        let mut i: usize = 0;
        while i < self.dirs.len()
            invariant
                i <= self.dirs.len(),
                dirs@.len() == i,
                views(dirs@) == views(self.dirs@).take(i as int),
            decreases self.dirs.len() - i,
        {
            let ghost before = dirs@;
            let dir = self.dirs[i].clone();
            dirs.push(dir);
            assert forall|j: int| 0 <= j < i + 1 implies views(dirs@)[j] == views(
                self.dirs@,
            ).take(i + 1)[j] by {
                if j < i {
                    assert(views(before)[j] == views(self.dirs@).take(i as int)[j]);
                }
            }
            assert(views(dirs@) =~= views(self.dirs@).take(i + 1));
            i = i + 1;
        }
        assert(views(self.dirs@).take(self.dirs.len() as int) =~= views(self.dirs@));
        CleanupDirsOnDrop { dirs }
    }
}

impl CleanupDirsOnDrop {
    /// A guard over `dirs`, in their order.
    pub fn new(dirs: Vec<String>) -> (guard: CleanupDirsOnDrop)
        ensures
            guard@ == views(dirs@),
    {
        CleanupDirsOnDrop { dirs }
    }

    /// Puts `dir` under the guard, after the directories that it holds.
    pub fn register(&mut self, dir: String)
        ensures
            final(self)@ == old(self)@.push(dir@),
    {
        self.dirs.push(dir);
        assert(views(self.dirs@) =~= views(old(self).dirs@).push(dir@));
    }

    /// The directories under the guard.
    pub fn dirs(&self) -> (dirs: &Vec<String>)
        ensures
            views(dirs@) == self@,
    {
        &self.dirs
    }

    /// The directories under the guard, handed over.
    pub fn dirs_owned(self) -> (dirs: Vec<String>)
        ensures
            views(dirs@) == self@,
    {
        self.dirs
    }

    /// Closes the guard, given how the removal of each of its directories
    /// ended, in the order of the directories.
    pub fn close(self, outcomes: &Vec<Removal>) -> (res: Result<(), Error>)
        ensures
            match res {
                Ok(()) => closing(self@, views(outcomes@)) == Ok::<(), ErrorView>(()),
                Err(e) => closing(self@, views(outcomes@)) == Err::<(), ErrorView>(e@),
            },
    {
        if outcomes.len() != self.dirs.len() {
            return Err(Error::InternalInvariant);
        }
        let mut text = String::new();
        let mut count: usize = 0;
        let mut i: usize = 0;
        while i < outcomes.len()
            invariant
                i <= outcomes.len(),
                count <= i,
                count == failures(views(outcomes@).take(i as int)).len(),
                text@ == joined(failures(views(outcomes@).take(i as int))),
            decreases outcomes.len() - i,
        {
            proof {
                let all = views(outcomes@);
                assert(all.take(i + 1).drop_last() =~= all.take(i as int));
                assert(all.take(i + 1).last() == outcomes[i as int]@);
            }
            match &outcomes[i] {
                Removal::Failed(message) => {
                    proof {
                        let before = failures(views(outcomes@).take(i as int));
                        assert(before.push(message@).drop_last() =~= before);
                        reveal_strlit("\n");
                        assert("\n"@ =~= seq!['\n']);
                    }
                    if count > 0 {
                        text.append("\n");
                    }
                    text.append(message.as_str());
                    count = count + 1;
                },
                _ => {},
            }
            i = i + 1;
        }
        assert(views(outcomes@).take(outcomes.len() as int) =~= views(outcomes@));
        if count == 0 {
            Ok(())
        } else {
            Err(Error::Aggregate(text))
        }
    }
}

/// The text ` [id][vN]suffix.nsp` that follows the name of an
/// application in the name of its package file.
pub open spec fn formatted_nsp_name(
    application_name: Seq<char>,
    application_version: Seq<char>,
    program_id: Seq<char>,
    suffix: Seq<char>,
) -> Seq<char> {
    application_name + " ["@ + program_id + "][v"@ + application_version + "]"@ + suffix
        + ".nsp"@
}

/// Where the package at `nsp_path` goes when it is given the name that
/// tells its application, program id and version: into the same directory.
/// A path without a parent is a not-found error.
pub fn formatted_nsp_rename(
    nsp_path: &str,
    application_name: &str,
    application_version: &str,
    program_id: &str,
    suffix: &str,
) -> (res: Result<String, Error>)
    ensures
        match res {
            Ok(dest) => path_parent(nsp_path@) is Some && dest@ == path_join(
                path_parent(nsp_path@)->Some_0,
                formatted_nsp_name(
                    application_name@,
                    application_version@,
                    program_id@,
                    suffix@,
                ),
            ),
            Err(e) => path_parent(nsp_path@) is None && e@ == ErrorView::NotFound(
                Missing::Parent,
            ),
        },
{
    let dir = match parent(nsp_path) {
        Some(dir) => dir,
        None => {
            return Err(Error::NotFound(Missing::Parent));
        },
    };
    let mut name = application_name.to_owned();
    name.append(" [");
    name.append(program_id);
    name.append("][v");
    name.append(application_version);
    name.append("]");
    name.append(suffix);
    name.append(".nsp");
    Ok(join(dir.as_str(), name.as_str()))
}

} // verus!
