//! What the service answers to an upload, and the paths it hands out.

use vstd::prelude::*;

pub mod api;

verus! {

broadcast use vstd::string::group_string_axioms;

/// The percent-encoding of a text: every byte of its UTF-8 form other than
/// an ASCII letter, digit, `-`, `_`, `.` or `~` written as `%XX`.
pub uninterp spec fn percent_encoded(s: Seq<char>) -> Seq<char>;

/// Relies on urlencoding's `encode`, which percent-encodes the UTF-8 bytes
/// of `s` (an empty text stays empty).
#[verifier::external_body]
fn url_encode(s: &str) -> (r: String)
    ensures
        r@ == percent_encoded(s@),
        s@.len() == 0 ==> r@.len() == 0,
{
    urlencoding::encode(s).into_owned()
}

/// The path `/<key>/<name>`.
pub open spec fn path_of(key: Seq<char>, name: Seq<char>) -> Seq<char> {
    seq!['/'] + key + seq!['/'] + name
}

/// The path `/<key>/<name>` of a paste whose file name is already encoded.
pub fn path_with_name(key: &str, name: &str) -> (r: String)
    ensures
        r@ == path_of(key@, name@),
{
    proof {
        reveal_strlit("/");
    }
    let mut p = String::from_str("/");
    p.append(key);
    p.append("/");
    p.append(name);
    p
}

/// The path under which a paste is served: its key, then its file name
/// percent-encoded.
pub fn paste_path(key: &str, file_name: &str) -> (r: String)
    ensures
        r@ == path_of(key@, percent_encoded(file_name@)),
{
    let encoded = url_encode(file_name);
    path_with_name(key, encoded.as_str())
}

/// The answer to an upload: the key, the path of the paste and its delete
/// credential.
#[derive(Clone, Debug)]
pub struct UploadPaste {
    pub id: String,
    pub path: String,
    pub delete_key: String,
}

impl UploadPaste {
    /// The answer for a paste stored under `key`.
    pub fn new(key: &str, file_name: &str, delete_key: &str) -> (r: UploadPaste)
        ensures
            r.id@ == key@,
            r.path@ == path_of(key@, percent_encoded(file_name@)),
            r.delete_key@ == delete_key@,
    {
        UploadPaste {
            id: key.to_string(),
            path: paste_path(key, file_name),
            delete_key: delete_key.to_string(),
        }
    }
}

} // verus!
