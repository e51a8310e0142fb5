use std::path::PathBuf;
use trinket::storage::file_ops::{APP_DIR, SNIPPETS_DIR};
use trinket::storage::names::{file_name_for, snippet_id};
use trinket::storage::order::sort_newest_first;
use trinket::storage::{FileStorage, FileTimes, PendingSave, Snippet, StorageError, StoredFile};

fn store() -> FileStorage {
    FileStorage::new(PathBuf::from("data").join("snippets"), Ok(())).unwrap()
}

fn file(name: &str, content: &str, created: i128) -> Result<StoredFile, StorageError> {
    Ok(StoredFile {
        file_name: name.to_string(),
        path: PathBuf::from("data").join("snippets").join(name),
        content: content.to_string(),
        created,
        modified: created + 1,
    })
}

fn plain_snippet(id: &str, created: i128) -> Snippet {
    Snippet {
        id: id.to_string(),
        content: format!("content of {id}"),
        preview: format!("content of {id}"),
        created,
        modified: created,
        file_path: PathBuf::from(format!("{id}.txt")),
    }
}

fn ids(snippets: &[Snippet]) -> Vec<String> {
    snippets.iter().map(|s| s.id.clone()).collect()
}

fn is_uuid_text(id: &str) -> bool {
    let chars: Vec<char> = id.chars().collect();
    chars.len() == 36
        && chars.iter().enumerate().all(|(i, c)| {
            if i == 8 || i == 13 || i == 18 || i == 23 {
                *c == '-'
            } else {
                c.is_ascii_digit() || ('a'..='f').contains(c)
            }
        })
}

#[test]
fn default_location_names() {
    assert_eq!(APP_DIR, "trinket");
    assert_eq!(SNIPPETS_DIR, "snippets");
}

#[test]
fn file_name_is_id_with_txt_extension() {
    assert_eq!(file_name_for("abc"), "abc.txt");
    assert_eq!(
        file_name_for("936da01f-9abd-4d9d-80c7-02af85c822a8"),
        "936da01f-9abd-4d9d-80c7-02af85c822a8.txt"
    );
    assert_eq!(file_name_for(""), ".txt");
}

#[test]
fn snippet_id_is_the_stem_of_a_txt_file() {
    assert_eq!(snippet_id("abc.txt"), Some("abc".to_string()));
    assert_eq!(snippet_id("a.b.txt"), Some("a.b".to_string()));
    assert_eq!(snippet_id("..txt"), Some(".".to_string()));
    assert_eq!(snippet_id("ünï.txt"), Some("ünï".to_string()));
    assert_eq!(snippet_id("x.txt.txt"), Some("x.txt".to_string()));
}

#[test]
fn snippet_id_refuses_other_files() {
    assert_eq!(snippet_id(""), None);
    assert_eq!(snippet_id(".txt"), None);
    assert_eq!(snippet_id("txt"), None);
    assert_eq!(snippet_id("notes.md"), None);
    assert_eq!(snippet_id("notes.TXT"), None);
    assert_eq!(snippet_id("notes.txt "), None);
    assert_eq!(snippet_id("notes.txt.bak"), None);
    assert_eq!(snippet_id("notestxt"), None);
    assert_eq!(snippet_id(".tmpAbC123"), None);
}

#[test]
fn file_name_and_snippet_id_undo_each_other() {
    for id in ["a", "some id", "936da01f-9abd-4d9d-80c7-02af85c822a8", "with.dot"] {
        assert_eq!(snippet_id(&file_name_for(id)), Some(id.to_string()));
    }
    for name in ["a.txt", "long name here.txt"] {
        assert_eq!(file_name_for(&snippet_id(name).unwrap()), name);
    }
}

#[test]
fn new_store_needs_its_directory() {
    let ok = FileStorage::new(PathBuf::from("base"), Ok(()));
    assert_eq!(ok.unwrap().base_path, PathBuf::from("base"));
    let failed = FileStorage::new(
        PathBuf::from("base"),
        Err(StorageError::IoError("permission denied".to_string())),
    );
    match failed {
        Err(StorageError::IoError(message)) => assert_eq!(message, "permission denied"),
        _ => panic!("the failure to make the directory must come back"),
    }
}

#[test]
fn storage_error_message_is_the_text_it_came_with() {
    assert_eq!(StorageError::IoError("disk full".to_string()).message(), "disk full");
    assert_eq!(StorageError::NotFound("gone".to_string()).message(), "gone");
}

#[test]
fn prepare_save_draws_an_id_and_names_the_file() {
    let storage = store();
    let pending = storage.prepare_save("some text");
    assert!(is_uuid_text(&pending.id), "id was {:?}", pending.id);
    assert_eq!(pending.file_name, format!("{}.txt", pending.id));
    assert_eq!(pending.file_path, storage.base_path.join(&pending.file_name));
    assert_eq!(pending.content, "some text");
    assert_eq!(snippet_id(&pending.file_name), Some(pending.id.clone()));
}

#[test]
fn prepare_save_draws_a_new_id_each_time() {
    let storage = store();
    let first = storage.prepare_save("same text");
    let second = storage.prepare_save("same text");
    assert_ne!(first.id, second.id);
    assert_ne!(first.file_name, second.file_name);
}

#[test]
fn prepare_save_as_names_the_file_after_the_given_id() {
    let storage = store();
    let pending = storage.prepare_save_as("my-id".to_string(), "text\nmore");
    assert_eq!(pending.id, "my-id");
    assert_eq!(pending.file_name, "my-id.txt");
    assert_eq!(pending.file_path, PathBuf::from("data").join("snippets").join("my-id.txt"));
    assert_eq!(pending.content, "text\nmore");
}

#[test]
fn prepare_save_takes_empty_text_too() {
    let pending = store().prepare_save("");
    assert_eq!(pending.content, "");
    assert!(is_uuid_text(&pending.id));
}

#[test]
fn save_snippet_builds_the_snippet_of_a_written_file() {
    let storage = store();
    let pending = storage.prepare_save("first\nsecond\nthird\nfourth");
    let id = pending.id.clone();
    let path = pending.file_path.clone();
    let times = FileTimes {
        created: 1_700_000_000_000_000_000,
        modified: 1_700_000_000_000_000_500,
    };
    let saved = storage.save_snippet(pending, Ok(times)).unwrap();
    assert_eq!(saved.id, id);
    assert_eq!(saved.content, "first\nsecond\nthird\nfourth");
    assert_eq!(saved.preview, "first second third");
    assert_eq!(saved.created, 1_700_000_000_000_000_000);
    assert_eq!(saved.modified, 1_700_000_000_000_000_500);
    assert_eq!(saved.file_path, path);
}

#[test]
fn save_snippet_hands_back_the_write_error() {
    let storage = store();
    let pending = storage.prepare_save("text");
    match storage.save_snippet(pending, Err(StorageError::IoError("rename failed".to_string()))) {
        Err(StorageError::IoError(message)) => assert_eq!(message, "rename failed"),
        _ => panic!("a failed write must not yield a snippet"),
    }
    let pending = storage.prepare_save("text");
    match storage.save_snippet(pending, Err(StorageError::NotFound("no directory".to_string()))) {
        Err(StorageError::NotFound(message)) => assert_eq!(message, "no directory"),
        _ => panic!("a failed write must not yield a snippet"),
    }
}

#[test]
fn load_all_sorts_newest_first() {
    let listing = Ok(vec![
        file("b.txt", "second", 20),
        file("a.txt", "first", 10),
        file("d.txt", "fourth", 40),
        file("c.txt", "third", 30),
    ]);
    let loaded = store().load_all_snippets(listing).unwrap();
    assert_eq!(ids(&loaded), vec!["d", "c", "b", "a"]);
    let created: Vec<i128> = loaded.iter().map(|s| s.created).collect();
    assert_eq!(created, vec![40, 30, 20, 10]);
}

#[test]
fn load_all_fills_every_field() {
    let listing = Ok(vec![file("note.txt", "l1\r\nl2\nl3\nl4", -5)]);
    let loaded = store().load_all_snippets(listing).unwrap();
    assert_eq!(loaded.len(), 1);
    assert_eq!(loaded[0].id, "note");
    assert_eq!(loaded[0].content, "l1\r\nl2\nl3\nl4");
    assert_eq!(loaded[0].preview, "l1 l2 l3");
    assert_eq!(loaded[0].created, -5);
    assert_eq!(loaded[0].modified, -4);
    assert_eq!(loaded[0].file_path, PathBuf::from("data").join("snippets").join("note.txt"));
}

#[test]
fn load_all_of_an_empty_directory_is_empty() {
    let loaded = store().load_all_snippets(Ok(Vec::new())).unwrap();
    assert!(loaded.is_empty());
}

#[test]
fn load_all_skips_unreadable_entries_and_other_files() {
    let listing = Ok(vec![
        file("keep-1.txt", "one", 1),
        Err(StorageError::IoError("invalid utf-8".to_string())),
        file("readme.md", "not a snippet", 99),
        file(".tmpQ1w2E3", "half written", 98),
        Err(StorageError::NotFound("vanished".to_string())),
        file("keep-2.txt", "two", 2),
        file(".txt", "no stem", 97),
    ]);
    let loaded = store().load_all_snippets(listing).unwrap();
    assert_eq!(ids(&loaded), vec!["keep-2", "keep-1"]);
}

#[test]
fn load_all_fails_when_the_directory_cannot_be_listed() {
    match store().load_all_snippets(Err(StorageError::IoError("no such directory".to_string()))) {
        Err(StorageError::IoError(message)) => assert_eq!(message, "no such directory"),
        _ => panic!("listing errors must come back"),
    }
    match store().load_all_snippets(Err(StorageError::NotFound("gone".to_string()))) {
        Err(StorageError::NotFound(message)) => assert_eq!(message, "gone"),
        _ => panic!("listing errors must come back"),
    }
}

#[test]
fn load_all_keeps_listing_order_among_equal_timestamps() {
    let listing = Ok(vec![
        file("x.txt", "x", 5),
        file("old.txt", "old", 1),
        file("y.txt", "y", 5),
        file("new.txt", "new", 9),
        file("z.txt", "z", 5),
    ]);
    let loaded = store().load_all_snippets(listing).unwrap();
    assert_eq!(ids(&loaded), vec!["new", "x", "y", "z", "old"]);
}

#[test]
fn snippets_saved_in_sequence_reload_in_reverse_order() {
    let storage = store();
    let mut listing: Vec<Result<StoredFile, StorageError>> = Vec::new();
    let mut saved_ids: Vec<String> = Vec::new();
    let mut n: i128 = 0;
    while n < 25 {
        let pending = storage.prepare_save(&format!("snippet number {n}"));
        let times = FileTimes { created: 1000 + n, modified: 1000 + n };
        listing.push(Ok(StoredFile {
            file_name: pending.file_name.clone(),
            path: pending.file_path.clone(),
            content: pending.content.clone(),
            created: times.created,
            modified: times.modified,
        }));
        let snippet = storage.save_snippet(pending, Ok(times)).unwrap();
        saved_ids.push(snippet.id);
        n += 1;
    }
    let loaded = storage.load_all_snippets(Ok(listing)).unwrap();
    saved_ids.reverse();
    assert_eq!(ids(&loaded), saved_ids);
    for pair in loaded.windows(2) {
        assert!(pair[0].created >= pair[1].created);
    }
}

#[test]
fn saved_snippet_is_loaded_exactly_once() {
    let storage = store();
    let pending: PendingSave = storage.prepare_save("the new text");
    let times = FileTimes { created: 50, modified: 50 };
    let written = StoredFile {
        file_name: pending.file_name.clone(),
        path: pending.file_path.clone(),
        content: pending.content.clone(),
        created: times.created,
        modified: times.modified,
    };
    let saved = storage.save_snippet(pending, Ok(times)).unwrap();
    let listing = Ok(vec![
        file("a.txt", "older text", 10),
        Ok(written),
        file("b.txt", "newer text", 90),
    ]);
    let loaded = storage.load_all_snippets(listing).unwrap();
    let found: Vec<&Snippet> = loaded.iter().filter(|s| s.content == "the new text").collect();
    assert_eq!(found.len(), 1);
    assert_eq!(found[0].id, saved.id);
    assert_eq!(found[0].preview, saved.preview);
    assert_eq!(found[0].created, saved.created);
    assert_eq!(found[0].file_path, saved.file_path);
    assert_eq!(loaded.len(), 3);
}

#[test]
fn a_temporary_file_changes_nothing_about_the_load() {
    let storage = store();
    let without = storage
        .load_all_snippets(Ok(vec![file("a.txt", "one", 1), file("b.txt", "two", 2)]))
        .unwrap();
    let with = storage
        .load_all_snippets(Ok(vec![
            file("a.txt", "one", 1),
            file(".tmpZ9y8X7", "tw", 3),
            file("b.txt", "two", 2),
        ]))
        .unwrap();
    assert_eq!(ids(&with), ids(&without));
    assert!(with.iter().all(|s| s.content != "tw"));
}

#[test]
fn sort_newest_first_orders_by_creation_time() {
    let sorted = sort_newest_first(vec![
        plain_snippet("c", 3),
        plain_snippet("a", 1),
        plain_snippet("e", 5),
        plain_snippet("b", 2),
        plain_snippet("d", 4),
    ]);
    assert_eq!(ids(&sorted), vec!["e", "d", "c", "b", "a"]);
}

#[test]
fn sort_newest_first_is_stable_and_keeps_everything() {
    let sorted = sort_newest_first(vec![
        plain_snippet("t1-first", 1),
        plain_snippet("t2-first", 2),
        plain_snippet("t1-second", 1),
        plain_snippet("t2-second", 2),
        plain_snippet("t1-third", 1),
    ]);
    assert_eq!(ids(&sorted), vec!["t2-first", "t2-second", "t1-first", "t1-second", "t1-third"]);
}

#[test]
fn sort_newest_first_leaves_a_sorted_list_alone() {
    let sorted = sort_newest_first(vec![
        plain_snippet("n", 9),
        plain_snippet("m", 5),
        plain_snippet("l", 5),
        plain_snippet("k", -3),
    ]);
    assert_eq!(ids(&sorted), vec!["n", "m", "l", "k"]);
    assert!(sort_newest_first(Vec::new()).is_empty());
}

#[test]
fn snippet_clone_keeps_every_field() {
    let source = plain_snippet("copy-me", 7);
    let copy = source.clone();
    assert_eq!(copy.id, source.id);
    assert_eq!(copy.content, source.content);
    assert_eq!(copy.preview, source.preview);
    assert_eq!(copy.created, source.created);
    assert_eq!(copy.modified, source.modified);
    assert_eq!(copy.file_path, PathBuf::from("copy-me.txt"));
}
