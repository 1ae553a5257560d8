//! A minimal storage interface: get or set one stored value by key, with no
//! failure reporting.
use vstd::prelude::*;

use crate::kv_store::database::{KVDatabase, Store};
use crate::kv_store::stored_type::{StoredType, StoredView};

verus! {

/// A table of stored values addressed by string keys: `get_item` looks one
/// up, `set_item` creates or overwrites one.
pub trait KeyValueStore: Sized {
    /// The mapping currently held.
    spec fn contents(&self) -> Map<Seq<char>, StoredView>;

    /// The value stored under `key`, if any.
    fn get_item(&self, key: String) -> (r: Option<StoredType>)
        ensures
            r matches Some(v) ==> self.contents().contains_key(key@) && v@
                == self.contents()[key@],
            r is None ==> !self.contents().contains_key(key@),
    ;

    /// Create or overwrite the entry under `key`.
    fn set_item(&mut self, key: String, value: StoredType)
        ensures
            final (self).contents() == old(self).contents().insert(key@, value@),
    ;
}

impl KeyValueStore for Store {
    open spec fn contents(&self) -> Map<Seq<char>, StoredView> {
        self.model()
    }

    fn get_item(&self, key: String) -> (r: Option<StoredType>) {
        match self.read(key) {
            Ok(value) => Some(value),
            Err(_) => None,
        }
    }

    fn set_item(&mut self, key: String, value: StoredType) {
        let _ = self.insert(key, value);
    }
}

} // verus!
