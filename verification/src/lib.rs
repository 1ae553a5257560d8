//! An in-memory key-value store for an HTTP service: clients store arbitrary
//! bytes under a string key and read them back; payloads declared as images
//! are decoded on write, and can be served as grayscale, blurred or
//! thumbnail-resized renditions.
//!
//! The store, the value classification and the operation dispatch live here
//! with their contracts; the HTTP layer around them only moves bytes.
use vstd::prelude::*;

pub mod database;
pub mod kv_store;

use kv_store::database::KVDatabase;

verus! {

/// The state shared by all request handlers: the database behind the
/// service. It is created once at startup and lives as long as the process.
pub struct AppState<T: KVDatabase> {
    pub db: T,
}

} // verus!
