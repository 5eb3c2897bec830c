//! Settings read once at startup.

use vstd::prelude::*;

verus! {

/// All settings of the service.
#[derive(Clone, Debug)]
pub struct Config {
    pub base_url: String,
    pub port: u16,
    pub database: Database,
    pub storage: Storage,
    pub limits: Limits,
    pub word_lists: WordLists,
}

/// Where the metadata store is reached.
#[derive(Clone, Debug)]
pub struct Database {
    pub url: String,
}

/// Which object store is used, and the settings of each (those of the
/// S3-style store may be left out where it is not used).
#[derive(Clone, Debug)]
pub struct Storage {
    pub kind: StorageKind,
    pub file: FileStorage,
    pub s3: Option<S3Storage>,
}

/// The root directory of the filesystem store.
#[derive(Clone, Debug)]
pub struct FileStorage {
    pub dir: String,
}

/// The bucket of the S3-style store, with an optional region and an
/// optional endpoint for services other than AWS.
#[derive(Clone, Debug)]
pub struct S3Storage {
    pub bucket: String,
    pub region: Option<String>,
    pub endpoint: Option<String>,
}

/// The two interchangeable object stores.
#[derive(Clone, Copy, Debug, PartialEq, Eq, Structural)]
pub enum StorageKind {
    File,
    S3,
}

/// The size ceiling of an upload, and the age in seconds after which a
/// paste expires (none: pastes never expire).
#[derive(Clone, Copy, Debug, PartialEq, Eq, Structural)]
pub struct Limits {
    pub max_upload_size: usize,
    pub expiration_secs: Option<u64>,
}

/// The files that the word lists are read from.
#[derive(Clone, Debug)]
pub struct WordLists {
    pub adjectives_file: String,
    pub nouns_file: String,
}

} // verus!
