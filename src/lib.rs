//! Core of a disposable paste host: key generation, paste records,
//! expiration, delete authorization and the decision flows that drive the
//! metadata and object stores.

pub mod clock;
pub mod error;
pub mod words;
pub mod models;
pub mod paste;
pub mod config;
pub mod storage;
pub mod types;
