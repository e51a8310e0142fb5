//! Snippet records and the store that keeps one file per snippet.

use super::names::{
    file_name_for, file_name_of, fresh_id, id_of_file_name, is_fresh_id, is_snippet_file_name,
    snippet_id,
};
use super::order::{is_newest_first, newest_first, sort_newest_first};
use super::preview::{create_preview, preview_of};
use std::path::PathBuf;
use vstd::prelude::*;

verus! {

/// `std::path::PathBuf`, carried through as an opaque value: the library
/// stores and hands back paths but never looks inside one.
#[verifier::external_type_specification]
#[verifier::external_body]
pub struct ExPathBuf(PathBuf);

/// `PathBuf::clone` returns a duplicate of the path.
pub assume_specification[ <PathBuf as Clone>::clone ](path: &PathBuf) -> (copy: PathBuf)
    ensures
        copy == *path,
;

/// `Path::join` makes a path of `base` and one more component, `name`. How
/// the two are put together depends on the platform, so nothing is stated of
/// the result.
#[verifier::external_body]
fn join_path(base: &PathBuf, name: &str) -> (path: PathBuf) {
    base.join(name)
}

/// Why the store could not do what was asked of it.
#[derive(Debug, Clone)]
pub enum StorageError {
    /// The file system refused: a directory could not be made, or a file
    /// could not be read, written or renamed.
    IoError(String),
    /// The file was gone when it was looked for.
    NotFound(String),
}

impl StorageError {
    /// The text that came with the failure.
    pub fn message(&self) -> (text: String)
        ensures
            text@ == match *self {
                StorageError::IoError(m) => m@,
                StorageError::NotFound(m) => m@,
            },
    {
        match self {
            StorageError::IoError(m) => m.clone(),
            StorageError::NotFound(m) => m.clone(),
        }
    }
}

/// One stored piece of text together with what is shown of it.
///
/// `created` and `modified` count nanoseconds since the Unix epoch, negative
/// before it.
#[derive(Debug, Clone)]
pub struct Snippet {
    pub id: String,
    pub content: String,
    pub preview: String,
    pub created: i128,
    pub modified: i128,
    pub file_path: PathBuf,
}

/// What a [`Snippet`] holds, as mathematical values.
pub struct SnippetModel {
    pub id: Seq<char>,
    pub content: Seq<char>,
    pub preview: Seq<char>,
    pub created: int,
    pub modified: int,
    pub file_path: PathBuf,
}

impl View for Snippet {
    type V = SnippetModel;

    open spec fn view(&self) -> SnippetModel {
        SnippetModel {
            id: self.id@,
            content: self.content@,
            preview: self.preview@,
            created: self.created as int,
            modified: self.modified as int,
            file_path: self.file_path,
        }
    }
}

/// The models of a list of snippets, in the same order.
pub open spec fn models(snippets: Seq<Snippet>) -> Seq<SnippetModel> {
    snippets.map_values(|s: Snippet| s@)
}

/// A file of the backing directory as it was read: its name within the
/// directory, where it lies, its text and its two timestamps.
#[derive(Debug, Clone)]
pub struct StoredFile {
    pub file_name: String,
    pub path: PathBuf,
    pub content: String,
    pub created: i128,
    pub modified: i128,
}

/// A save that has its identifier and its place but is not yet on disk.
#[derive(Debug, Clone)]
pub struct PendingSave {
    pub id: String,
    pub file_name: String,
    pub file_path: PathBuf,
    pub content: String,
}

/// The timestamps that the file system gave a file.
#[derive(Debug, Clone, Copy)]
pub struct FileTimes {
    pub created: i128,
    pub modified: i128,
}

/// The snippet that a stored file holds.
pub open spec fn snippet_in(file: StoredFile) -> SnippetModel {
    SnippetModel {
        id: id_of_file_name(file.file_name@),
        content: file.content@,
        preview: preview_of(file.content@),
        created: file.created as int,
        modified: file.modified as int,
        file_path: file.path,
    }
}

/// The entry was read and is a snippet file.
pub open spec fn is_loadable(entry: Result<StoredFile, StorageError>) -> bool {
    entry matches Ok(file) && is_snippet_file_name(file.file_name@)
}

/// The snippets held by the entries of a directory, in the order of the
/// entries. Entries that could not be read and files that are not snippet
/// files hold none.
pub open spec fn snippets_in(entries: Seq<Result<StoredFile, StorageError>>) -> Seq<SnippetModel>
    decreases entries.len(),
{
    if entries.len() == 0 {
        Seq::empty()
    } else if is_loadable(entries.last()) {
        snippets_in(entries.drop_last()).push(snippet_in(entries.last()->Ok_0))
    } else {
        snippets_in(entries.drop_last())
    }
}

/// The snippet that a finished save hands back.
pub open spec fn saved_snippet(pending: PendingSave, times: FileTimes) -> SnippetModel {
    SnippetModel {
        id: pending.id@,
        content: pending.content@,
        preview: preview_of(pending.content@),
        created: times.created as int,
        modified: times.modified as int,
        file_path: pending.file_path,
    }
}

/// The file that a finished save has left in the backing directory.
pub open spec fn file_of_save(pending: PendingSave, times: FileTimes) -> StoredFile {
    StoredFile {
        file_name: pending.file_name,
        path: pending.file_path,
        content: pending.content,
        created: times.created,
        modified: times.modified,
    }
}

/// The entry under which a finished save is found when the directory is
/// read.
pub open spec fn entry_of_save(pending: PendingSave, times: FileTimes) -> Result<
    StoredFile,
    StorageError,
> {
    Ok(file_of_save(pending, times))
}

/// The snippets of `list` whose text is `content`, in list order.
pub open spec fn with_content(list: Seq<SnippetModel>, content: Seq<char>) -> Seq<SnippetModel> {
    list.filter(|s: SnippetModel| s.content == content)
}

/// The snippets of two runs of entries, one after the other, are those of
/// the first run followed by those of the second.
pub proof fn lemma_snippets_in_runs(
    first: Seq<Result<StoredFile, StorageError>>,
    second: Seq<Result<StoredFile, StorageError>>,
)
    ensures
        snippets_in(first + second) == snippets_in(first) + snippets_in(second),
    decreases second.len(),
{
    if second.len() > 0 {
        lemma_snippets_in_runs(first, second.drop_last());
        assert((first + second).drop_last() == first + second.drop_last());
    }
}

/// `snippet` is the snippet of one of the loadable entries.
pub open spec fn is_held_by(
    snippet: SnippetModel,
    entries: Seq<Result<StoredFile, StorageError>>,
) -> bool {
    exists|i: int|
        0 <= i < entries.len() && is_loadable(#[trigger] entries[i]) && snippet == snippet_in(
            entries[i]->Ok_0,
        )
}

/// Every snippet of a directory is the snippet of one of its loadable
/// entries.
pub proof fn lemma_snippets_in_come_from_entries(entries: Seq<Result<StoredFile, StorageError>>)
    ensures
        forall|k: int|
            0 <= k < snippets_in(entries).len() ==> is_held_by(
                #[trigger] snippets_in(entries)[k],
                entries,
            ),
    decreases entries.len(),
{
    if entries.len() > 0 {
        let earlier = entries.drop_last();
        lemma_snippets_in_come_from_entries(earlier);
        assert forall|k: int| 0 <= k < snippets_in(entries).len() implies is_held_by(
            #[trigger] snippets_in(entries)[k],
            entries,
        ) by {
            if k < snippets_in(earlier).len() {
                let snippet = snippets_in(earlier)[k];
                let i = choose|i: int|
                    0 <= i < earlier.len() && is_loadable(#[trigger] earlier[i]) && snippet
                        == snippet_in(earlier[i]->Ok_0);
                assert(entries[i] == earlier[i]);
            } else {
                assert(is_loadable(entries[entries.len() - 1]));
            }
        }
    }
}

/// A directory of one entry holds that entry's snippet, if it has one.
pub proof fn lemma_snippets_in_one_entry(entry: Result<StoredFile, StorageError>)
    ensures
        snippets_in(seq![entry]) == if is_loadable(entry) {
            seq![snippet_in(entry->Ok_0)]
        } else {
            Seq::empty()
        },
{
    reveal_with_fuel(snippets_in, 2);
}

/// A list with the same items as a list of one item is that list.
proof fn lemma_same_items_as_one<A>(list: Seq<A>, item: A)
    requires
        list.to_multiset() == seq![item].to_multiset(),
    ensures
        list == seq![item],
{
    broadcast use vstd::seq_lib::group_to_multiset_ensures;

    assert(seq![item].len() == seq![item].to_multiset().len());
    assert(seq![item][0] == item);
    assert(list.to_multiset().count(item) > 0);
}

/// An entry that could not be read, or a file that is not a snippet file,
/// such as the temporary file of a save that was cut short before its rename,
/// changes nothing about the snippets of a directory, wherever it stands.
pub proof fn lemma_other_entries_hold_no_snippet(
    entries: Seq<Result<StoredFile, StorageError>>,
    at: int,
    entry: Result<StoredFile, StorageError>,
)
    requires
        0 <= at <= entries.len(),
        !is_loadable(entry),
    ensures
        snippets_in(entries.insert(at, entry)) == snippets_in(entries),
        newest_first(snippets_in(entries.insert(at, entry))) == newest_first(snippets_in(entries)),
{
    let front = entries.take(at);
    let back = entries.skip(at);
    assert(entries == front + back);
    assert(entries.insert(at, entry) =~= front + seq![entry] + back);
    lemma_snippets_in_runs(front, back);
    lemma_snippets_in_runs(front, seq![entry]);
    lemma_snippets_in_runs(front + seq![entry], back);
    lemma_snippets_in_one_entry(entry);
}

/// A save that is cut short between writing its temporary file and renaming
/// it leaves that file behind, under a name without a dot among its last four
/// characters and with whatever part of the text had been written. Loading
/// finds the same snippets with that file as without it: a snippet is either
/// not there yet or there with its whole text.
pub proof fn lemma_unfinished_save_is_not_loaded(
    entries: Seq<Result<StoredFile, StorageError>>,
    at: int,
    left_behind: StoredFile,
)
    requires
        0 <= at <= entries.len(),
        forall|i: int|
            left_behind.file_name@.len() - 4 <= i < left_behind.file_name@.len() && 0 <= i
                ==> left_behind.file_name@[i] != '.',
    ensures
        newest_first(
            snippets_in(entries.insert(at, Ok::<StoredFile, StorageError>(left_behind))),
        ) == newest_first(snippets_in(entries)),
{
    super::names::lemma_name_without_dot_is_no_snippet(left_behind.file_name@);
    lemma_other_entries_hold_no_snippet(
        entries,
        at,
        Ok::<StoredFile, StorageError>(left_behind),
    );
}

/// Entries of which none holds a snippet with the text `content` give a list
/// without such a snippet.
proof fn lemma_no_stored_text(entries: Seq<Result<StoredFile, StorageError>>, content: Seq<char>)
    requires
        forall|i: int|
            0 <= i < entries.len() && is_loadable(#[trigger] entries[i])
                ==> entries[i]->Ok_0.content@ != content,
    ensures
        with_content(snippets_in(entries), content) == Seq::<SnippetModel>::empty(),
{
    let pred = |s: SnippetModel| s.content == content;
    let list = snippets_in(entries);
    lemma_snippets_in_come_from_entries(entries);
    list.lemma_all_neg_filter_empty(pred);
}

/// Once a save is finished, the directory holds one more snippet file, and
/// loading the directory finds the saved snippet. If no snippet with that
/// text was stored before, it is the only one with that text.
pub proof fn lemma_saved_snippet_is_loaded_once(
    entries: Seq<Result<StoredFile, StorageError>>,
    at: int,
    pending: PendingSave,
    times: FileTimes,
)
    requires
        0 <= at <= entries.len(),
        pending.id@.len() > 0,
        pending.file_name@ == file_name_of(pending.id@),
        forall|i: int|
            0 <= i < entries.len() && is_loadable(#[trigger] entries[i])
                ==> entries[i]->Ok_0.content@ != pending.content@,
    ensures
        with_content(
            newest_first(snippets_in(entries.insert(at, entry_of_save(pending, times)))),
            pending.content@,
        ) == seq![saved_snippet(pending, times)],
{
    let entry = entry_of_save(pending, times);
    let saved = saved_snippet(pending, times);
    let pred = |s: SnippetModel| s.content == pending.content@;
    let front = entries.take(at);
    let back = entries.skip(at);
    let new_list = snippets_in(entries.insert(at, entry));
    assert(new_list == snippets_in(front) + seq![saved] + snippets_in(back)) by {
        super::names::lemma_file_name_leads_back(pending.id@);
        assert(entries.insert(at, entry) =~= front + seq![entry] + back);
        lemma_snippets_in_runs(front, seq![entry]);
        lemma_snippets_in_runs(front + seq![entry], back);
        lemma_snippets_in_one_entry(entry);
    }
    assert(snippets_in(front).filter(pred) == Seq::<SnippetModel>::empty()) by {
        lemma_no_stored_text(front, pending.content@);
    }
    assert(snippets_in(back).filter(pred) == Seq::<SnippetModel>::empty()) by {
        lemma_no_stored_text(back, pending.content@);
    }
    assert(seq![saved].filter(pred) == seq![saved]) by {
        super::order::lemma_filter_one(saved, pred);
    }
    assert(new_list.filter(pred) =~= seq![saved]) by {
        Seq::filter_distributes_over_add(snippets_in(front), seq![saved], pred);
        Seq::filter_distributes_over_add(
            snippets_in(front) + seq![saved],
            snippets_in(back),
            pred,
        );
    }
    super::order::lemma_newest_first_keeps_filtered(new_list, pred);
    lemma_same_items_as_one(newest_first(new_list).filter(pred), saved);
}

/// The name of the tool's directory below the platform's directory for local
/// data. The store lies in `SNIPPETS_DIR` inside it unless told otherwise.
pub const APP_DIR: &'static str = "trinket";

/// The name of the store's directory inside `APP_DIR`.
pub const SNIPPETS_DIR: &'static str = "snippets";

/// The store: one file per snippet in the directory `base_path`.
#[derive(Debug, Clone)]
pub struct FileStorage {
    pub base_path: PathBuf,
}

impl FileStorage {
    /// The store in `base_path`, given how making sure that the directory
    /// exists went: there is no store without its directory.
    pub fn new(base_path: PathBuf, directory: Result<(), StorageError>) -> (storage: Result<
        Self,
        StorageError,
    >)
        ensures
            directory matches Err(e) ==> storage == Err::<Self, StorageError>(e),
            directory is Ok ==> storage == Ok::<Self, StorageError>((FileStorage { base_path })),
    {
        match directory {
            Ok(()) => Ok(FileStorage { base_path }),
            Err(e) => Err(e),
        }
    }

    /// Starts a save of `content` under a freshly drawn identifier. Nothing
    /// is on disk yet.
    pub fn prepare_save(&self, content: &str) -> (pending: PendingSave)
        ensures
            pending.content@ == content@,
            is_fresh_id(pending.id@),
            pending.file_name@ == file_name_of(pending.id@),
    {
        self.prepare_save_as(fresh_id(), content)
    }

    /// Starts a save of `content` under the identifier `id`: settles the name
    /// of the snippet's file and its place in the backing directory. Nothing
    /// is on disk yet.
    pub fn prepare_save_as(&self, id: String, content: &str) -> (pending: PendingSave)
        ensures
            pending.id == id,
            pending.content@ == content@,
            pending.file_name@ == file_name_of(id@),
    {
        let file_name = file_name_for(id.as_str());
        let file_path = join_path(&self.base_path, file_name.as_str());
        PendingSave { id, file_name, file_path, content: content.to_owned() }
    }

    /// Finishes a save, given how writing the file went. A failed write
    /// yields its error and no snippet; a successful one yields the snippet
    /// with the timestamps of its file and its preview.
    pub fn save_snippet(
        &self,
        pending: PendingSave,
        written: Result<FileTimes, StorageError>,
    ) -> (saved: Result<Snippet, StorageError>)
        ensures
            written matches Err(e) ==> saved == Err::<Snippet, StorageError>(e),
            written matches Ok(times) ==> saved is Ok && saved->Ok_0@ == saved_snippet(
                pending,
                times,
            ),
    {
        match written {
            Err(e) => Err(e),
            Ok(times) => {
                let preview = create_preview(pending.content.as_str());
                Ok(
                    Snippet {
                        id: pending.id,
                        content: pending.content,
                        preview,
                        created: times.created,
                        modified: times.modified,
                        file_path: pending.file_path,
                    },
                )
            },
        }
    }

    /// The snippets of the backing directory, newest first, given what
    /// listing and reading it brought. A directory that could not be listed
    /// yields that error. An entry that could not be read is left out, and so
    /// is a file that is not a snippet file.
    pub fn load_all_snippets(
        &self,
        listing: Result<Vec<Result<StoredFile, StorageError>>, StorageError>,
    ) -> (loaded: Result<Vec<Snippet>, StorageError>)
        ensures
            listing matches Err(e) ==> loaded == Err::<Vec<Snippet>, StorageError>(e),
            listing matches Ok(entries) ==> loaded is Ok && models(loaded->Ok_0@) == newest_first(
                snippets_in(entries@),
            ) && is_newest_first(models(loaded->Ok_0@)),
    {
        match listing {
            Err(e) => Err(e),
            Ok(entries) => {
                let mut snippets: Vec<Snippet> = Vec::new();
                for entry in it: entries
                    invariant
                        it.seq() == entries@,
                        models(snippets@) == snippets_in(entries@.take(it.index() as int)),
                {
                    assert(entries@.take(it.index() + 1).drop_last() == entries@.take(
                        it.index() as int,
                    ));
                    if let Ok(file) = entry {
                        if let Some(id) = snippet_id(file.file_name.as_str()) {
                            let preview = create_preview(file.content.as_str());
                            let snippet = Snippet {
                                id,
                                content: file.content,
                                preview,
                                created: file.created,
                                modified: file.modified,
                                file_path: file.path,
                            };
                            snippets.push(snippet);
                        }
                    }
                }
                assert(entries@.take(entries@.len() as int) == entries@);
                Ok(sort_newest_first(snippets))
            },
        }
    }
}

} // verus!
