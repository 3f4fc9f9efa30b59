//! Persistence of a flashcard application's state: one JSON document, held in
//! a single file of the application's data directory.
pub mod document;
pub mod json;

pub use document::{load_from, StorageError, StoragePayload, StoredFile, STORAGE_FILE_NAME};
