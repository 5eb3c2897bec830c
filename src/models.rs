//! The paste record and the request that creates one.

use vstd::prelude::*;
use crate::clock::Timestamp;
use crate::words::{separator_free, three_words, WordLists, generate_key};

verus! {

/// The metadata of one paste: its key, the credential that may delete it
/// (absent: it can never be deleted by a user), the uploaded file's name and
/// the instant of creation.
#[derive(Clone, Debug)]
pub struct Paste {
    pub key: String,
    pub delete_key: Option<String>,
    pub file_name: String,
    pub timestamp: Timestamp,
}

/// What a create asks the metadata store to insert; the store assigns the
/// creation instant.
#[derive(Clone, Debug)]
pub struct NewPaste {
    pub key: String,
    pub delete_key: String,
    pub file_name: String,
}

/// Length of a delete credential: a version-4 UUID, hyphenated.
pub const DELETE_KEY_LEN: usize = 36;

/// Relies on uuid's `Uuid::new_v4` and its `Display`, which writes the
/// lower-case hyphenated form of 36 characters.
#[verifier::external_body]
fn new_delete_key() -> (r: String)
    ensures
        r@.len() == DELETE_KEY_LEN,
{
    uuid::Uuid::new_v4().to_string()
}

impl NewPaste {
    /// A fresh request for `file_name`: a key drawn from `words` and a random
    /// delete credential.
    pub fn generate(words: &WordLists, file_name: &str) -> (r: NewPaste)
        ensures
            words.is_key(r.key@),
            three_words(r.key@),
            separator_free(r.key@),
            r.delete_key@.len() == DELETE_KEY_LEN,
            r.file_name@ == file_name@,
    {
        let key = generate_key(words);
        let delete_key = new_delete_key();
        NewPaste { key, delete_key, file_name: file_name.to_string() }
    }
}

} // verus!
