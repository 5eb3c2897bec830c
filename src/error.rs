//! The error kinds that the core reports, and how backend failures map
//! onto them.

use vstd::prelude::*;

verus! {

/// What went wrong, as a stable kind that a transport layer can present.
/// Backend failures keep a description of their cause for diagnostics.
#[derive(Clone, Debug)]
pub enum AppError {
    NotFound,
    InsufficientStorage,
    MissingFile,
    MissingFileName,
    MissingFileContentType,
    MissingDeleteKey,
    WrongDeleteKey,
    Multipart { detail: String },
    Http { detail: String },
    Database { detail: String },
    IO { detail: String },
    S3 { detail: String },
    /// A stored creation time lies in the future of the clock.
    ClockSkew,
}

/// Which collaborator a failure came from.
#[derive(Clone, Copy, Debug, PartialEq, Eq, Structural)]
pub enum Backend {
    Database,
    Filesystem,
    ObjectStore,
}

/// How a collaborator failed, as far as the core tells failures apart.
#[derive(Clone, Copy, Debug, PartialEq, Eq, Structural)]
pub enum Fault {
    /// The row, file or object does not exist.
    Missing,
    /// The backend has no room left to write.
    StorageFull,
    /// Any other failure.
    Other,
}

/// `e` is how a failure of `backend` of the given fault is reported: an
/// absent item is `NotFound`, a full store is `InsufficientStorage`, and the
/// rest is the backend's own error kind carrying `detail`.
pub open spec fn reports(e: AppError, backend: Backend, fault: Fault, detail: Seq<char>) -> bool {
    match fault {
        Fault::Missing => e is NotFound,
        Fault::StorageFull => e is InsufficientStorage,
        Fault::Other => match backend {
            Backend::Database => e matches AppError::Database { detail: d } && d@ == detail,
            Backend::Filesystem => e matches AppError::IO { detail: d } && d@ == detail,
            Backend::ObjectStore => e matches AppError::S3 { detail: d } && d@ == detail,
        },
    }
}

/// The HTTP status under which an error kind is presented.
pub open spec fn status_of(e: AppError) -> u16 {
    match e {
        AppError::NotFound => 404,
        AppError::InsufficientStorage => 507,
        AppError::MissingFile | AppError::MissingFileName | AppError::MissingFileContentType
        | AppError::MissingDeleteKey => 400,
        AppError::WrongDeleteKey => 401,
        AppError::Multipart { .. } | AppError::Http { .. } => 400,
        AppError::Database { .. } | AppError::IO { .. } | AppError::S3 { .. }
        | AppError::ClockSkew => 500,
    }
}

/// The text shown for an error kind.
pub open spec fn message_of(e: AppError) -> Seq<char> {
    match e {
        AppError::NotFound => "not found"@,
        AppError::InsufficientStorage => "insufficient storage"@,
        AppError::MissingFile => "missing multipart file"@,
        AppError::MissingFileName => "missing multipart file name"@,
        AppError::MissingFileContentType => "missing content type for multipart file"@,
        AppError::MissingDeleteKey => "missing delete key"@,
        AppError::WrongDeleteKey => "wrong delete key"@,
        AppError::Multipart { .. } => "error reading multipart data"@,
        AppError::Http { .. } => "http error"@,
        AppError::Database { .. } => "database error"@,
        AppError::IO { .. } => "IO error"@,
        AppError::S3 { .. } => "S3 error"@,
        AppError::ClockSkew => "timestamp lies in the future"@,
    }
}

impl AppError {
    /// Classifies a failure of a backend.
    pub fn from_backend(backend: Backend, fault: Fault, detail: String) -> (r: AppError)
        ensures
            reports(r, backend, fault, detail@),
    {
        match fault {
            Fault::Missing => AppError::NotFound,
            Fault::StorageFull => AppError::InsufficientStorage,
            Fault::Other => match backend {
                Backend::Database => AppError::Database { detail },
                Backend::Filesystem => AppError::IO { detail },
                Backend::ObjectStore => AppError::S3 { detail },
            },
        }
    }

    /// The HTTP status code for this error.
    pub fn status_code(&self) -> (r: u16)
        ensures
            r == status_of(*self),
    {
        match self {
            AppError::NotFound => 404,
            AppError::InsufficientStorage => 507,
            AppError::MissingFile | AppError::MissingFileName | AppError::MissingFileContentType
            | AppError::MissingDeleteKey => 400,
            AppError::WrongDeleteKey => 401,
            AppError::Multipart { .. } | AppError::Http { .. } => 400,
            AppError::Database { .. } | AppError::IO { .. } | AppError::S3 { .. }
            | AppError::ClockSkew => 500,
        }
    }

    /// The text shown for this error.
    pub fn message(&self) -> (r: String)
        ensures
            r@ == message_of(*self),
    {
        let m = match self {
            AppError::NotFound => "not found",
            AppError::InsufficientStorage => "insufficient storage",
            AppError::MissingFile => "missing multipart file",
            AppError::MissingFileName => "missing multipart file name",
            AppError::MissingFileContentType => "missing content type for multipart file",
            AppError::MissingDeleteKey => "missing delete key",
            AppError::WrongDeleteKey => "wrong delete key",
            AppError::Multipart { .. } => "error reading multipart data",
            AppError::Http { .. } => "http error",
            AppError::Database { .. } => "database error",
            AppError::IO { .. } => "IO error",
            AppError::S3 { .. } => "S3 error",
            AppError::ClockSkew => "timestamp lies in the future",
        };
        m.to_string()
    }
}

} // verus!
