//! The key-value store of the single-binding compatibility mode: every
//! dispatch addresses the default key-value store.

use crate::error::Error;
use crate::host::{acknowledged, Host, WapcHost, DEFAULT_BINDING};
use crate::keyvalue::{
    exists_answer, list_count_answer, list_values_answer, set_count_answer, set_values_answer, sum_answer,
    value_answer, KeyValueStoreHostBinding,
};
use vstd::prelude::*;

verus! {

/// A key-value store client that always addresses the default store.
pub struct DefaultKeyValueStore<H> {
    store: KeyValueStoreHostBinding<H>,
}

impl<H> View for DefaultKeyValueStore<H> {
    /// The binding name that every dispatch addresses.
    type V = Seq<char>;

    closed spec fn view(&self) -> Seq<char> {
        self.store@
    }
}

impl DefaultKeyValueStore<WapcHost> {
    /// Creates a client of the host runtime's default key-value store.
    pub fn new() -> (r: Self)
        ensures
            r@ == DEFAULT_BINDING@,
    {
        DefaultKeyValueStore::with_host(WapcHost)
    }
}

impl Default for DefaultKeyValueStore<WapcHost> {
    fn default() -> (r: Self)
        ensures
            r@ == DEFAULT_BINDING@,
    {
        DefaultKeyValueStore::with_host(WapcHost)
    }
}

impl<H: Host> DefaultKeyValueStore<H> {
    /// Creates a client of the default key-value store that dispatches through the given host.
    pub fn with_host(host: H) -> (r: Self)
        ensures
            r@ == DEFAULT_BINDING@,
    {
        DefaultKeyValueStore { store: KeyValueStoreHostBinding::with_host(DEFAULT_BINDING, host) }
    }

    /// Reads the value stored at `key`; `None` where the key does not exist.
    pub fn get(&self, key: &str) -> (r: Result<Option<String>, Error>)
        ensures
            exists|reply| value_answer(reply, r),
    {
        self.store.get(key)
    }

    /// Stores `value` at `key`, to expire after `expires` seconds.
    pub fn set(&self, key: &str, value: &str, expires: Option<u32>) -> (r: Result<(), Error>)
        ensures
            exists|reply| r == acknowledged(reply),
    {
        self.store.set(key, value, expires)
    }

    /// Adds `value` to the number at `key` and returns the new value.
    pub fn atomic_add(&self, key: &str, value: i32) -> (r: Result<i32, Error>)
        ensures
            exists|reply| sum_answer(reply, r),
    {
        self.store.atomic_add(key, value)
    }

    /// Appends `item` to the list at `key` and returns its new length.
    pub fn list_add(&self, key: &str, item: &str) -> (r: Result<usize, Error>)
        ensures
            exists|reply| list_count_answer(reply, r),
    {
        self.store.list_add(key, item)
    }

    /// Removes `item` from the list at `key` and returns its new length.
    pub fn list_del_item(&self, key: &str, item: &str) -> (r: Result<usize, Error>)
        ensures
            exists|reply| list_count_answer(reply, r),
    {
        self.store.list_del_item(key, item)
    }

    /// Removes `key` and what is stored at it.
    pub fn del_key(&self, key: &str) -> (r: Result<(), Error>)
        ensures
            exists|reply| r == acknowledged(reply),
    {
        self.store.del_key(key)
    }

    /// Reads the items of the list at `key` from `start` to `stop_inclusive`.
    pub fn list_range(&self, key: &str, start: isize, stop_inclusive: isize) -> (r: Result<Vec<String>, Error>)
        ensures
            exists|reply| list_values_answer(reply, r),
    {
        self.store.list_range(key, start, stop_inclusive)
    }

    /// Empties the list at `key`, leaving the key in place.
    pub fn list_clear(&self, key: &str) -> (r: Result<(), Error>)
        ensures
            exists|reply| r == acknowledged(reply),
    {
        self.store.list_clear(key)
    }

    /// Adds `value` to the set at `key` and returns its new size.
    pub fn set_add(&self, key: &str, value: &str) -> (r: Result<usize, Error>)
        ensures
            exists|reply| set_count_answer(reply, r),
    {
        self.store.set_add(key, value)
    }

    /// Removes `value` from the set at `key` and returns its new size.
    pub fn set_remove(&self, key: &str, value: &str) -> (r: Result<usize, Error>)
        ensures
            exists|reply| set_count_answer(reply, r),
    {
        self.store.set_remove(key, value)
    }

    /// Returns the union of the sets at `keys`.
    pub fn set_union(&self, keys: Vec<String>) -> (r: Result<Vec<String>, Error>)
        ensures
            exists|reply| set_values_answer(reply, r),
    {
        self.store.set_union(keys)
    }

    /// Returns the intersection of the sets at `keys`.
    pub fn set_intersect(&self, keys: Vec<String>) -> (r: Result<Vec<String>, Error>)
        ensures
            exists|reply| set_values_answer(reply, r),
    {
        self.store.set_intersect(keys)
    }

    /// Returns the members of the set at `key`.
    pub fn set_members(&self, key: &str) -> (r: Result<Vec<String>, Error>)
        ensures
            exists|reply| set_values_answer(reply, r),
    {
        self.store.set_members(key)
    }

    /// Tells whether `key` exists.
    pub fn key_exists(&self, key: &str) -> (r: Result<bool, Error>)
        ensures
            exists|reply| exists_answer(reply, r),
    {
        self.store.key_exists(key)
    }
}

} // verus!
