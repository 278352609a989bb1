//! Trusted boundary around the embedded persistent key-value store.
//!
//! The store's current contents are modelled as a map from key bytes to
//! value bytes; every operation's contract is stated over that map. What
//! a store opened from disk holds is unknown until it is read.

use vstd::prelude::*;
use vstd::seq_lib::*;

use crate::error::CliError;

verus! {

/// A persistent byte-keyed store, safe for concurrent point-key access.
#[verifier::external_body]
pub struct KvStore {
    db: sled::Db,
}

/// What the store currently holds: a map from key bytes to value bytes.
pub uninterp spec fn kv_contents(s: KvStore) -> Map<Seq<u8>, Seq<u8>>;

/// The empty store contents.
pub open spec fn kv_empty() -> Map<Seq<u8>, Seq<u8>> {
    Map::empty()
}

impl KvStore {
    /// Relies on `sled::open`: opens or creates the database at `path`.
    /// What it holds is whatever was persisted there.
    #[verifier::external_body]
    pub fn open(path: &str) -> (r: Result<KvStore, CliError>)
        ensures
            r matches Err(e) ==> e == CliError::StoreFailed,
    {
        match sled::open(path) {
            Ok(db) => Ok(KvStore { db }),
            Err(_) => Err(CliError::StoreFailed),
        }
    }

    /// Relies on `sled::Config::temporary`: the database lives at a fresh
    /// generated path, starts empty, and its files are removed on drop.
    #[verifier::external_body]
    pub fn open_temporary() -> (r: Result<KvStore, CliError>)
        ensures
            r matches Ok(s) ==> kv_contents(s) == kv_empty(),
            r matches Err(e) ==> e == CliError::StoreFailed,
    {
        match sled::Config::new().temporary(true).open() {
            Ok(db) => Ok(KvStore { db }),
            Err(_) => Err(CliError::StoreFailed),
        }
    }

    /// Relies on `sled::Tree::insert`: on success the key maps to the value;
    /// earlier bindings of the key are replaced.
    #[verifier::external_body]
    pub fn put(&mut self, key: &[u8], value: &[u8]) -> (r: Result<(), CliError>)
        ensures
            r matches Ok(()) ==> kv_contents(*final(self)) == kv_contents(*old(self)).insert(
                key@,
                value@,
            ),
            r matches Err(e) ==> e == CliError::StoreFailed,
    {
        match self.db.insert(key, value) {
            Ok(_) => Ok(()),
            Err(_) => Err(CliError::StoreFailed),
        }
    }

    /// Relies on `sled::Tree::get`: returns the value bound to the key, or
    /// `None` when the key is absent.
    #[verifier::external_body]
    pub fn get(&self, key: &[u8]) -> (r: Result<Option<Vec<u8>>, CliError>)
        ensures
            r matches Ok(Some(v)) ==> kv_contents(*self).contains_key(key@) && kv_contents(
                *self,
            )[key@] == v@,
            r matches Ok(None) ==> !kv_contents(*self).contains_key(key@),
            r matches Err(e) ==> e == CliError::StoreFailed,
    {
        match self.db.get(key) {
            Ok(Some(v)) => Ok(Some(v.to_vec())),
            Ok(None) => Ok(None),
            Err(_) => Err(CliError::StoreFailed),
        }
    }

    /// Relies on `sled::Tree::scan_prefix`: yields exactly the bindings
    /// whose key starts with the prefix. The iteration order is the store's
    /// own and carries no meaning here.
    #[verifier::external_body]
    pub fn scan_prefix(&self, prefix: &[u8]) -> (r: Result<Vec<(Vec<u8>, Vec<u8>)>, CliError>)
        ensures
            r matches Ok(pairs) ==> {
                &&& forall|i: int|
                    0 <= i < pairs@.len() ==> {
                        &&& prefix@.is_prefix_of((#[trigger] pairs@[i]).0@)
                        &&& kv_contents(*self).contains_key(pairs@[i].0@)
                        &&& kv_contents(*self)[pairs@[i].0@] == pairs@[i].1@
                    }
                &&& forall|k: Seq<u8>|
                    kv_contents(*self).contains_key(k) && prefix@.is_prefix_of(k) ==> exists|i: int|
                        0 <= i < pairs@.len() && (#[trigger] pairs@[i]).0@ == k
                &&& forall|i: int, j: int|
                    0 <= i < j < pairs@.len() ==> (#[trigger] pairs@[i]).0@ != (
                    #[trigger] pairs@[j]).0@
            },
            r matches Err(e) ==> e == CliError::StoreFailed,
    {
        let mut out: Vec<(Vec<u8>, Vec<u8>)> = Vec::new();
        for item in self.db.scan_prefix(prefix) {
            match item {
                Ok((k, v)) => out.push((k.to_vec(), v.to_vec())),
                Err(_) => return Err(CliError::StoreFailed),
            }
        }
        Ok(out)
    }

    /// Relies on `sled::Tree::flush`: persists pending writes.
    #[verifier::external_body]
    pub fn flush(&self) -> (r: Result<(), CliError>)
        ensures
            r matches Err(e) ==> e == CliError::StoreFailed,
    {
        match self.db.flush() {
            Ok(_) => Ok(()),
            Err(_) => Err(CliError::StoreFailed),
        }
    }
}

} // verus!
