//! The per-isolate class-metadata side table.
//!
//! Exported classes need per-isolate metadata (the host runtime's persistent
//! constructor template) keyed by a class identity. Rather than stashing an
//! implicit pointer on the isolate, a [`ClassRegistry`] is explicit
//! process-wide state: one [`ClassMap`] per isolate, created lazily on first
//! use and discarded with the isolate.

use crate::scope::Isolate;
use std::collections::HashMap;
use vstd::prelude::*;

verus! {

broadcast use vstd::std_specs::hash::group_hash_axioms;

/// What the registry keeps per exported class: the plain identity of the
/// host runtime's persistent constructor template for the class.
#[derive(Clone, Copy, Debug, PartialEq, Eq, Structural)]
pub struct ClassMetadata {
    /// The host runtime's identity for the class's constructor template.
    pub template: u64,
}

/// One isolate's class metadata, keyed by the plain identity of the native
/// class.
pub struct ClassMap {
    map: HashMap<u64, ClassMetadata>,
}

impl View for ClassMap {
    type V = Map<u64, ClassMetadata>;

    closed spec fn view(&self) -> Map<u64, ClassMetadata> {
        self.map@
    }
}

impl ClassMap {
    /// A class map with no entry.
    pub fn new() -> (m: ClassMap)
        ensures
            m@ == Map::<u64, ClassMetadata>::empty(),
    {
        ClassMap { map: HashMap::new() }
    }

    /// The metadata registered for `key`, if any.
    pub fn get(&self, key: u64) -> (r: Option<&ClassMetadata>)
        ensures
            match r {
                Some(v) => self@.contains_key(key) && *v == self@[key],
                None => !self@.contains_key(key),
            },
    {
        self.map.get(&key)
    }

    /// Registers `val` for `key`, replacing any earlier entry.
    pub fn set(&mut self, key: u64, val: ClassMetadata)
        ensures
            final (self)@ == old(self)@.insert(key, val),
    {
        let _ = self.map.insert(key, val);
    }
}

/// The process-wide registry: one [`ClassMap`] per isolate, keyed by the
/// isolate's identity and created lazily on first use.
pub struct ClassRegistry {
    map: HashMap<u64, ClassMap>,
}

impl ClassRegistry {
    /// The metadata the registry holds for class `key` in isolate `iso`,
    /// if that isolate's map exists and has an entry for it.
    pub closed spec fn entry(self, iso: u64, key: u64) -> Option<ClassMetadata> {
        if self.map@.contains_key(iso) && self.map@[iso]@.contains_key(key) {
            Some(self.map@[iso]@[key])
        } else {
            None
        }
    }

    /// A registry with no isolate's class map.
    pub fn new() -> (r: ClassRegistry)
        ensures
            forall|i: u64, k: u64| r.entry(i, k) is None,
    {
        ClassRegistry { map: HashMap::new() }
    }

    /// The metadata registered for class `key` in isolate `isolate`, if
    /// any.
    pub fn get(&self, isolate: Isolate, key: u64) -> (r: Option<ClassMetadata>)
        ensures
            r == self.entry(isolate.id(), key),
    {
        let iso = isolate.to_raw();
        match self.map.get(&iso) {
            Some(m) => match m.get(key) {
                Some(v) => Some(*v),
                None => None,
            },
            None => None,
        }
    }

    /// Registers `val` for class `key` in isolate `isolate`, creating that
    /// isolate's class map on first use. No other isolate's map and no
    /// other class's entry is touched.
    pub fn set(&mut self, isolate: Isolate, key: u64, val: ClassMetadata)
        ensures
            final (self).entry(isolate.id(), key) == Some(val),
            forall|i: u64, k: u64|
                !(i == isolate.id() && k == key) ==> final (self).entry(i, k) == old(self).entry(
                    i,
                    k,
                ),
    {
        let iso = isolate.to_raw();
        let mut inner = match self.map.remove(&iso) {
            Some(m) => m,
            None => ClassMap::new(),
        };
        inner.set(key, val);
        let _ = self.map.insert(iso, inner);
    }
}

} // verus!
