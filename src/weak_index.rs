//! The weak index behind a string table: a hash set of non-owning references
//! to shared buffers, looked up by their text.
use std::collections::hash_map::RandomState;
use std::sync::{Arc, Weak};
use vstd::prelude::*;
use weak_table::WeakHashSet;

verus! {

/// A set of weak references to shared text buffers, hashed and compared by
/// text: a `weak_table::WeakHashSet<Weak<str>>`, which is held here unseen
/// because Verus cannot declare `std::sync::Weak` and its allocator parameter.
///
/// An entry does not keep its buffer alive: once the last strong reference to a
/// buffer is dropped, lookups no longer find it, and the set reclaims the slot
/// on a later insertion. Which entries are live changes outside of any call on
/// the set, so its contents are not modelled; only what each lookup returns is.
#[verifier::external_body]
pub(crate) struct WeakIndex {
    set: WeakHashSet<Weak<str>, RandomState>,
}

impl WeakIndex {
    /// Relies on `WeakHashSet::new`: an empty set with its default capacity.
    #[verifier::external_body]
    pub(crate) fn new() -> (r: WeakIndex) {
        WeakIndex { set: WeakHashSet::new() }
    }

    /// Relies on `WeakHashSet::get`: it upgrades and returns a live entry only
    /// when that entry's text equals the probe.
    #[verifier::external_body]
    pub(crate) fn lookup(&self, s: &str) -> (r: Option<Arc<str>>)
        ensures
            r matches Some(buf) ==> (*buf)@ == s@,
    {
        self.set.get(s)
    }

    /// Relies on `WeakHashSet::insert`: it stores a weak reference to `buf`,
    /// dropping expired entries as the table grows. The buffer itself is not kept.
    #[verifier::external_body]
    pub(crate) fn insert(&mut self, buf: Arc<str>) {
        self.set.insert(buf);
    }
}

} // verus!
