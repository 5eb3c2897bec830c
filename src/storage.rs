//! The object stores: a flat directory of files, or a bucket of an
//! S3-style service, selected once at startup.

use vstd::prelude::*;
use crate::config;
use crate::words::separator_free;

verus! {

broadcast use vstd::string::group_string_axioms;

/// A file `name` inside directory `dir`: joined by one `'/'` unless `dir`
/// is empty or already ends with one.
pub open spec fn join_path(dir: Seq<char>, name: Seq<char>) -> Seq<char> {
    if dir.len() == 0 || dir.last() == '/' {
        dir + name
    } else {
        dir + seq!['/'] + name
    }
}

/// The filesystem store: each key is one file directly under `dir`.
#[derive(Clone, Debug)]
pub struct FileStorage {
    dir: String,
}

impl FileStorage {
    /// The root directory.
    pub closed spec fn root(self) -> Seq<char> {
        self.dir@
    }

    /// A store rooted at `dir`.
    pub fn new(dir: String) -> (r: FileStorage)
        ensures
            r.root() == dir@,
    {
        FileStorage { dir }
    }

    /// The root directory.
    pub fn dir(&self) -> (r: &str)
        ensures
            r@ == self.root(),
    {
        self.dir.as_str()
    }

    /// The file that holds the object of `key`. A key never holds a path
    /// separator, so the file lies directly under the root.
    pub fn object_path(&self, key: &str) -> (r: String)
        requires
            separator_free(key@),
        ensures
            r@ == join_path(self.root(), key@),
    {
        let mut p = String::from_str(self.dir.as_str());
        let n = self.dir.as_str().unicode_len();
        proof {
            reveal_strlit("/");
        }
        if n > 0 && self.dir.as_str().get_char(n - 1) != '/' {
            p.append("/");
        }
        p.append(key);
        p
    }
}

/// The S3-style store: objects live in one bucket, under their key.
#[derive(Clone, Debug)]
pub struct S3Storage {
    bucket: String,
}

impl S3Storage {
    /// The bucket's name.
    pub closed spec fn bucket_name(self) -> Seq<char> {
        self.bucket@
    }

    /// A store over `bucket`.
    pub fn new(bucket: String) -> (r: S3Storage)
        ensures
            r.bucket_name() == bucket@,
    {
        S3Storage { bucket }
    }

    /// The bucket's name.
    pub fn bucket(&self) -> (r: &str)
        ensures
            r@ == self.bucket_name(),
    {
        self.bucket.as_str()
    }
}

/// Either object store, behind one interface.
#[derive(Clone, Debug)]
pub enum AnyStorage {
    File(FileStorage),
    S3(S3Storage),
}

impl AnyStorage {
    /// The store that the settings select: the filesystem store at its
    /// directory, or the S3-style store over its bucket; `None` where the
    /// S3-style store is selected without its settings.
    pub fn from_config(storage: &config::Storage) -> (r: Option<AnyStorage>)
        ensures
            match storage.kind {
                config::StorageKind::File => r matches Some(AnyStorage::File(f)) && f.root()
                    == storage.file.dir@,
                config::StorageKind::S3 => match storage.s3 {
                    Some(s3) => r matches Some(AnyStorage::S3(s)) && s.bucket_name()
                        == s3.bucket@,
                    None => r is None,
                },
            },
    {
        match storage.kind {
            config::StorageKind::File => Some(
                AnyStorage::File(FileStorage::new(storage.file.dir.clone())),
            ),
            config::StorageKind::S3 => match &storage.s3 {
                Some(s3) => Some(AnyStorage::S3(S3Storage::new(s3.bucket.clone()))),
                None => None,
            },
        }
    }
}

impl From<FileStorage> for AnyStorage {
    fn from(value: FileStorage) -> (r: AnyStorage)
        ensures
            r == AnyStorage::File(value),
    {
        AnyStorage::File(value)
    }
}

impl vstd::std_specs::convert::FromSpecImpl<FileStorage> for AnyStorage {
    open spec fn obeys_from_spec() -> bool {
        true
    }

    open spec fn from_spec(v: FileStorage) -> AnyStorage {
        AnyStorage::File(v)
    }
}

impl From<S3Storage> for AnyStorage {
    fn from(value: S3Storage) -> (r: AnyStorage)
        ensures
            r == AnyStorage::S3(value),
    {
        AnyStorage::S3(value)
    }
}

impl vstd::std_specs::convert::FromSpecImpl<S3Storage> for AnyStorage {
    open spec fn obeys_from_spec() -> bool {
        true
    }

    open spec fn from_spec(v: S3Storage) -> AnyStorage {
        AnyStorage::S3(v)
    }
}

} // verus!
