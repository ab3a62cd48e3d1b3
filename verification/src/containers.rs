//! The two containers under comparison, behind one interface.
//!
//! Each container is a hash map from byte-sequence keys to a `u64` value,
//! held in a field Verus does not look into; its contents are modelled by an
//! uninterpreted map, and every operation the benchmark performs goes through
//! a trusted wrapper whose contract states what the operation does to that
//! map.

use vstd::prelude::*;

verus! {

/// Contents of a container that holds no entries.
pub open spec fn no_entries() -> Map<Seq<u8>, u64> {
    Map::empty()
}

/// The interface the benchmark passes run against: a keyed container with a
/// mathematical view of its contents.
pub trait KeyedContainer: Sized {
    /// The contents as a map from key bytes to the stored value.
    spec fn contents(&self) -> Map<Seq<u8>, u64>;

    /// A fresh, empty container with room for `n` entries.
    fn with_capacity(n: usize) -> (m: Self)
        ensures
            m.contents() == no_entries(),
    ;

    /// Inserts `key` mapped to `value`, overwriting any entry the key already
    /// had.
    fn insert(&mut self, key: &Vec<u8>, value: u64)
        ensures
            final(self).contents() == old(self).contents().insert(key@, value),
    ;

    /// Looks `key` up: the stored value if the key is present, nothing
    /// otherwise.
    fn get(&self, key: &Vec<u8>) -> (r: Option<u64>)
        ensures
            r == (if self.contents().dom().contains(key@) {
                Some(self.contents()[key@])
            } else {
                None::<u64>
            }),
    ;

    /// The number of entries held.
    fn len(&self) -> (r: usize)
        ensures
            self.contents().dom().finite() ==> r as nat == self.contents().dom().len(),
    ;
}

/// The general-purpose container variant: the standard hasher-backed map.
#[verifier::external_body]
pub struct GeneralMap {
    inner: std::collections::HashMap<Vec<u8>, u64>,
}

/// What a `GeneralMap` holds, keyed by the bytes of each key.
pub uninterp spec fn general_contents(m: GeneralMap) -> Map<Seq<u8>, u64>;

/// Relies on std::collections::HashMap::with_capacity: a new map holding no
/// entries.
#[verifier::external_body]
fn general_with_capacity(n: usize) -> (m: GeneralMap)
    ensures
        general_contents(m) == no_entries(),
{
    GeneralMap { inner: std::collections::HashMap::with_capacity(n) }
}

/// Relies on std::collections::HashMap::insert: the key now maps to the given
/// value and every other entry is unchanged.
#[verifier::external_body]
fn general_insert(m: &mut GeneralMap, key: &Vec<u8>, value: u64)
    ensures
        general_contents(*final(m)) == general_contents(*old(m)).insert(key@, value),
{
    m.inner.insert(key.clone(), value);
}

/// Relies on std::collections::HashMap::get: the value stored under the key,
/// if any.
#[verifier::external_body]
fn general_get(m: &GeneralMap, key: &Vec<u8>) -> (r: Option<u64>)
    ensures
        r == (if general_contents(*m).dom().contains(key@) {
            Some(general_contents(*m)[key@])
        } else {
            None::<u64>
        }),
{
    m.inner.get(key).copied()
}

/// Relies on std::collections::HashMap::len: the number of entries.
#[verifier::external_body]
fn general_len(m: &GeneralMap) -> (r: usize)
    ensures
        general_contents(*m).dom().finite() ==> r as nat == general_contents(*m).dom().len(),
{
    m.inner.len()
}

impl KeyedContainer for GeneralMap {
    open spec fn contents(&self) -> Map<Seq<u8>, u64> {
        general_contents(*self)
    }

    fn with_capacity(n: usize) -> (m: Self) {
        general_with_capacity(n)
    }

    fn insert(&mut self, key: &Vec<u8>, value: u64) {
        general_insert(self, key, value);
    }

    fn get(&self, key: &Vec<u8>) -> (r: Option<u64>) {
        general_get(self, key)
    }

    fn len(&self) -> (r: usize) {
        general_len(self)
    }
}

/// The fast-hash container variant: a map using the FNV hasher.
#[verifier::external_body]
pub struct FnvMap {
    inner: fnv::FnvHashMap<Vec<u8>, u64>,
}

/// What an `FnvMap` holds, keyed by the bytes of each key.
pub uninterp spec fn fnv_contents(m: FnvMap) -> Map<Seq<u8>, u64>;

/// Relies on std::collections::HashMap::with_capacity_and_hasher, applied to
/// fnv's FnvBuildHasher: a new map holding no entries.
#[verifier::external_body]
fn fnv_with_capacity(n: usize) -> (m: FnvMap)
    ensures
        fnv_contents(m) == no_entries(),
{
    FnvMap { inner: fnv::FnvHashMap::with_capacity_and_hasher(n, Default::default()) }
}

/// Relies on std::collections::HashMap::insert with the FNV hasher: the key
/// now maps to the given value and every other entry is unchanged.
#[verifier::external_body]
fn fnv_insert(m: &mut FnvMap, key: &Vec<u8>, value: u64)
    ensures
        fnv_contents(*final(m)) == fnv_contents(*old(m)).insert(key@, value),
{
    m.inner.insert(key.clone(), value);
}

/// Relies on std::collections::HashMap::get with the FNV hasher: the value
/// stored under the key, if any.
#[verifier::external_body]
fn fnv_get(m: &FnvMap, key: &Vec<u8>) -> (r: Option<u64>)
    ensures
        r == (if fnv_contents(*m).dom().contains(key@) {
            Some(fnv_contents(*m)[key@])
        } else {
            None::<u64>
        }),
{
    m.inner.get(key).copied()
}

/// Relies on std::collections::HashMap::len: the number of entries.
#[verifier::external_body]
fn fnv_len(m: &FnvMap) -> (r: usize)
    ensures
        fnv_contents(*m).dom().finite() ==> r as nat == fnv_contents(*m).dom().len(),
{
    m.inner.len()
}

impl KeyedContainer for FnvMap {
    open spec fn contents(&self) -> Map<Seq<u8>, u64> {
        fnv_contents(*self)
    }

    fn with_capacity(n: usize) -> (m: Self) {
        fnv_with_capacity(n)
    }

    fn insert(&mut self, key: &Vec<u8>, value: u64) {
        fnv_insert(self, key, value);
    }

    fn get(&self, key: &Vec<u8>) -> (r: Option<u64>) {
        fnv_get(self, key)
    }

    fn len(&self) -> (r: usize) {
        fnv_len(self)
    }
}

} // verus!
