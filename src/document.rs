//! The stored document: its cards, its decks, and how it is framed as a JSON
//! object and read back.
use vstd::prelude::*;

use crate::json::{
    describe_error, new_object, null_value, object_entries, parse_object, parsed_object,
    pretty_object_text, print_object_pretty, read_strings, string_list_of, strings_value,
    take_entry, value_is_null,
};

verus! {

/// The name of the file, inside the application's data directory, that holds
/// the document.
pub const STORAGE_FILE_NAME: &'static str = "memory-anki-storage.json";

/// All the persisted state of the application: the cards, whose shape only
/// the caller knows, and the deck names in the caller's order.
#[derive(Debug)]
pub struct StoragePayload {
    pub cards: serde_json::Value,
    pub decks: Vec<String>,
}

/// Why a load or a save failed; each carries a description of the cause.
#[derive(Debug)]
pub enum StorageError {
    /// The data directory could not be resolved or created.
    StorageUnavailable(String),
    /// The storage file could not be read or written.
    IoError(String),
    /// The stored text is no JSON document of the expected shape.
    DeserializationError(String),
    /// The document could not be written as JSON text.
    SerializationError(String),
}

impl View for StoragePayload {
    type V = (serde_json::Value, Seq<Seq<char>>);

    open spec fn view(&self) -> (serde_json::Value, Seq<Seq<char>>) {
        (self.cards, self.decks.deep_view())
    }
}

/// The key under which the document's object holds the cards.
pub open spec fn cards_key() -> Seq<char> {
    "cards"@
}

/// The key under which the document's object holds the deck names.
pub open spec fn decks_key() -> Seq<char> {
    "decks"@
}

/// Whether an object's entries are exactly a document with these cards and
/// deck names.
pub open spec fn holds_document(
    e: Map<Seq<char>, serde_json::Value>,
    doc: (serde_json::Value, Seq<Seq<char>>),
) -> bool {
    &&& e.dom() == set![cards_key(), decks_key()]
    &&& e[cards_key()] == doc.0
    &&& string_list_of(e[decks_key()]) == Some(doc.1)
}

/// The document that an object's entries hold: both keys must be present and
/// the decks must be a list of strings. Other keys are ignored.
pub open spec fn document_in(e: Map<Seq<char>, serde_json::Value>) -> Option<
    (serde_json::Value, Seq<Seq<char>>),
> {
    if e.contains_key(cards_key()) && e.contains_key(decks_key()) && string_list_of(
        e[decks_key()],
    ) is Some {
        Some((e[cards_key()], string_list_of(e[decks_key()]).unwrap()))
    } else {
        None
    }
}

/// The document that a stored text holds, if any.
pub open spec fn document_of_text(text: Seq<char>) -> Option<(serde_json::Value, Seq<Seq<char>>)> {
    match parsed_object(text) {
        Some(e) => document_in(e),
        None => None,
    }
}

/// The two keys of the document's object are different.
proof fn lemma_keys_differ()
    ensures
        cards_key() != decks_key(),
{
    reveal_strlit("cards");
    reveal_strlit("decks");
    assert(cards_key()[0] != decks_key()[0]);
}

/// Whether `r` is what reading a document from `text` owes: the document
/// that the text holds, or a deserialization error where it holds none.
pub open spec fn decoded_as(r: Result<StoragePayload, StorageError>, text: Seq<char>) -> bool {
    match document_of_text(text) {
        Some(doc) => r matches Ok(p) && p@ == doc,
        None => r matches Err(StorageError::DeserializationError(_)),
    }
}

impl StoragePayload {
    /// The document of an application that has never saved: null cards and
    /// no decks.
    pub fn empty() -> (r: StoragePayload)
        ensures
            value_is_null(r.cards),
            r.decks@.len() == 0,
    {
        StoragePayload { cards: null_value(), decks: Vec::new() }
    }

    /// Frames the document as a JSON object with the keys `cards` and `decks`.
    pub fn to_object(self) -> (r: serde_json::Map<String, serde_json::Value>)
        ensures
            holds_document(object_entries(r), self@),
    {
        let StoragePayload { cards, decks } = self;
        let mut m = new_object();
        let _ = m.insert("cards".to_owned(), cards);
        let _ = m.insert("decks".to_owned(), strings_value(decks));
        proof {
            lemma_keys_differ();
            assert(object_entries(m).dom() =~= set![cards_key(), decks_key()]);
        }
        m
    }

    /// Reads a document back from a JSON object.
    pub fn from_object(m: serde_json::Map<String, serde_json::Value>) -> (r: Result<
        StoragePayload,
        StorageError,
    >)
        ensures
            match document_in(object_entries(m)) {
                Some(doc) => r matches Ok(p) && p@ == doc,
                None => r matches Err(StorageError::DeserializationError(_)),
            },
    {
        let mut m = m;
        proof {
            lemma_keys_differ();
        }
        let cards = match take_entry(&mut m, "cards") {
            Some(v) => v,
            None => {
                return Err(StorageError::DeserializationError("missing field `cards`".to_string()));
            },
        };
        let decks = match take_entry(&mut m, "decks") {
            Some(v) => v,
            None => {
                return Err(StorageError::DeserializationError("missing field `decks`".to_string()));
            },
        };
        match read_strings(decks) {
            Ok(names) => Ok(StoragePayload { cards, decks: names }),
            Err(err) => Err(StorageError::DeserializationError(describe_error(&err))),
        }
    }

    /// Writes the document as pretty-printed JSON text, the form in which it
    /// is stored. Every document can be written, so this always succeeds.
    pub fn encode(self) -> (r: Result<String, StorageError>)
        ensures
            r is Ok,
            match r {
                Ok(text) => exists|e: Map<Seq<char>, serde_json::Value>|
                    holds_document(e, self@) && #[trigger] pretty_object_text(e) == text@,
                Err(err) => err is SerializationError,
            },
    {
        let m = self.to_object();
        match print_object_pretty(&m) {
            Ok(text) => Ok(text),
            Err(err) => Err(StorageError::SerializationError(describe_error(&err))),
        }
    }

    /// Reads a document from stored text: a JSON object whose key `cards`
    /// holds any value and whose key `decks` holds a list of strings. Other
    /// keys are ignored. Where the text repeats a key, its last value is the
    /// one read; the text is read as a JSON object and not field by field, so
    /// a repeated `cards` or `decks` is no error here.
    pub fn decode(text: &str) -> (r: Result<StoragePayload, StorageError>)
        ensures
            decoded_as(r, text@),
            parsed_object(text@) is None ==> r matches Err(StorageError::DeserializationError(_)),
    {
        match parse_object(text) {
            Ok(m) => StoragePayload::from_object(m),
            Err(err) => Err(StorageError::DeserializationError(describe_error(&err))),
        }
    }
}

/// What was found at the place of the storage file when a load looked for it.
#[derive(Debug)]
pub enum StoredFile {
    /// No file is there: nothing was ever saved.
    Missing,
    /// A file is there but could not be read; the cause is described.
    Unreadable(String),
    /// The whole text of the file.
    Text(String),
}

/// Decides what a load returns from what was found in place of the storage
/// file: the empty document where no file is there, the document that the
/// text holds where one is.
pub fn load_from(file: StoredFile) -> (r: Result<StoragePayload, StorageError>)
    ensures
        file is Missing ==> (r matches Ok(p) && value_is_null(p.cards) && p.decks@.len() == 0),
        file matches StoredFile::Unreadable(cause) ==> (r matches Err(StorageError::IoError(c))
            && c@ == cause@),
        file matches StoredFile::Text(text) ==> decoded_as(r, text@),
        file matches StoredFile::Text(text) && parsed_object(text@) is None ==> r matches Err(
            StorageError::DeserializationError(_),
        ),
{
    match file {
        StoredFile::Missing => Ok(StoragePayload::empty()),
        StoredFile::Unreadable(cause) => Err(StorageError::IoError(cause)),
        StoredFile::Text(text) => StoragePayload::decode(text.as_str()),
    }
}

impl StorageError {
    /// The description of the cause that the error carries.
    pub open spec fn cause(&self) -> Seq<char> {
        match self {
            StorageError::StorageUnavailable(c) => c@,
            StorageError::IoError(c) => c@,
            StorageError::DeserializationError(c) => c@,
            StorageError::SerializationError(c) => c@,
        }
    }

    /// The description of the cause, as text to show to a user.
    pub fn message(&self) -> (r: String)
        ensures
            r@ == self.cause(),
    {
        match self {
            StorageError::StorageUnavailable(c) => c.clone(),
            StorageError::IoError(c) => c.clone(),
            StorageError::DeserializationError(c) => c.clone(),
            StorageError::SerializationError(c) => c.clone(),
        }
    }
}

/// A document framed as an object is read back unchanged, field for field:
/// the same cards and the same deck names in the same order, duplicates and
/// empty names included.
pub proof fn lemma_object_round_trip(
    e: Map<Seq<char>, serde_json::Value>,
    doc: (serde_json::Value, Seq<Seq<char>>),
)
    requires
        holds_document(e, doc),
    ensures
        document_in(e) == Some(doc),
{
    lemma_keys_differ();
    assert(e.contains_key(cards_key()));
    assert(e.contains_key(decks_key()));
}

} // verus!
