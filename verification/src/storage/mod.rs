//! Snippet records, their on-disk layout and the search over them.

pub mod file_ops;
pub mod indexer;
pub mod names;
pub mod order;
pub mod preview;
pub mod time;

pub use file_ops::{
    FileStorage, FileTimes, PendingSave, Snippet, SnippetModel, StorageError, StoredFile,
};
pub use indexer::SearchIndex;
