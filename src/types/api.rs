//! The answer to an upload as the HTTP interface sends it.

use vstd::prelude::*;
use crate::types::{paste_path, path_of, percent_encoded};

verus! {

broadcast use vstd::string::group_string_axioms;

/// The answer to an upload: the key, the full URL of the paste and its
/// delete credential.
#[derive(Clone, Debug)]
pub struct UploadPaste {
    pub id: String,
    pub url: String,
    pub delete_key: String,
}

impl UploadPaste {
    /// The answer for a paste stored under `key`, served below `base_url`.
    pub fn new(base_url: &str, key: &str, file_name: &str, delete_key: &str) -> (r: UploadPaste)
        ensures
            r.id@ == key@,
            r.url@ == base_url@ + path_of(key@, percent_encoded(file_name@)),
            r.delete_key@ == delete_key@,
    {
        let path = paste_path(key, file_name);
        let mut url = String::from_str(base_url);
        url.append(path.as_str());
        UploadPaste { id: key.to_string(), url, delete_key: delete_key.to_string() }
    }
}

} // verus!
