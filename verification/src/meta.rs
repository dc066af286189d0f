//! The per-module metadata store that render hooks use to pass state
//! between a hook call and later lookups.
//!
//! The store is a concurrent two-level map from module identifier to key to
//! [`Value`], kept in a `dashmap::DashMap`.  Verified code sees it through
//! the model [`meta_entries`], a map of maps of value views, and through the
//! three trusted wrappers below, whose contracts state exactly what
//! dashmap's `get`, `entry`/`or_default` and `insert` do to that model.

use vstd::prelude::*;

use crate::value::Value;
use crate::value::ValueView;

verus! {

/// The model of the store: for each module identifier, the keys written
/// for it and the views of the values stored under them.
pub type ValueMetaEntries = Map<Seq<char>, Map<Seq<char>, ValueView>>;

/// The concurrent mapping from module identifier to per-module metadata.
#[verifier::external_body]
pub struct MetaMap {
    inner: dashmap::DashMap<String, dashmap::DashMap<String, Value>>,
}

/// What the store holds: for each module identifier, the keys written for
/// that module and the views of the values stored under them.
pub uninterp spec fn meta_entries(m: MetaMap) -> ValueMetaEntries;

/// The metadata recorded for one module: its entry in the store, or the
/// empty map if nothing was ever written for it.
pub open spec fn module_entries(entries: ValueMetaEntries, module: Seq<char>) -> Map<
    Seq<char>,
    ValueView,
> {
    if entries.contains_key(module) {
        entries[module]
    } else {
        Map::empty()
    }
}

/// The value read for a module and key: what was stored, or `Undefined`
/// when the key was never set for that module.
pub open spec fn meta_lookup(entries: ValueMetaEntries, module: Seq<char>, key: Seq<char>) -> ValueView {
    let m = module_entries(entries, module);
    if m.contains_key(key) {
        m[key]
    } else {
        ValueView::Undefined
    }
}

/// The store after one write: the module's map (created empty on first
/// write) gains or overwrites the key.
pub open spec fn meta_store(
    entries: ValueMetaEntries,
    module: Seq<char>,
    key: Seq<char>,
    v: ValueView,
) -> ValueMetaEntries {
    entries.insert(module, module_entries(entries, module).insert(key, v))
}

/// The model of a store with nothing written yet.
pub open spec fn empty_meta() -> ValueMetaEntries {
    Map::empty()
}

impl MetaMap {
    /// Relies on dashmap::DashMap::new: a freshly created map has no entries.
    #[verifier::external_body]
    pub fn new() -> (r: MetaMap)
        ensures
            meta_entries(r) == empty_meta(),
    {
        MetaMap { inner: dashmap::DashMap::new() }
    }

    /// Relies on dashmap::DashMap::get, on the outer and on the inner map:
    /// it returns the value stored under the key, if there is one; the
    /// clone of the stored `Value` keeps its view.
    #[verifier::external_body]
    fn lookup(&self, module: &String, key: &String) -> (r: Option<Value>)
        ensures
            (match r {
                Some(v) => {
                    &&& meta_entries(*self).contains_key(module@)
                    &&& meta_entries(*self)[module@].contains_key(key@)
                    &&& v@ == meta_entries(*self)[module@][key@]
                },
                None => !(meta_entries(*self).contains_key(module@)
                    && meta_entries(*self)[module@].contains_key(key@)),
            }),
    {
        match self.inner.get(module) {
            Some(sub) => match sub.get(key) {
                Some(v) => Some(v.value().clone()),
                None => None,
            },
            None => None,
        }
    }

    /// Relies on dashmap::DashMap::entry followed by Entry::or_default,
    /// which creates an empty map for the module on first write, and on
    /// dashmap::DashMap::insert, which stores the value under the key,
    /// overwriting an earlier one.
    #[verifier::external_body]
    fn store(&mut self, module: &String, key: &String, value: Value)
        ensures
            meta_entries(*final(self)) == meta_store(
                meta_entries(*old(self)),
                module@,
                key@,
                value@,
            ),
    {
        self.inner.entry(module.clone()).or_default().insert(key.clone(), value);
    }
}

/// The accessor handed to a render hook for one module: reads and writes
/// that module's metadata in whichever store the caller passes.
pub struct Meta {
    pub id: String,
}

impl Meta {
    /// The value stored for `key` on this accessor's module, or `Undefined`
    /// if the key was never set.
    pub fn get(&self, map: &MetaMap, key: String) -> (r: Value)
        ensures
            r@ == meta_lookup(meta_entries(*map), self.id@, key@),
    {
        match map.lookup(&self.id, &key) {
            Some(v) => v,
            None => Value::Undefined,
        }
    }

    /// Stores `value` under `key` for this accessor's module, creating the
    /// module's entry on first write.
    pub fn set(&self, map: &mut MetaMap, key: String, value: Value)
        ensures
            meta_entries(*final(map)) == meta_store(
                meta_entries(*old(map)),
                self.id@,
                key@,
                value@,
            ),
    {
        map.store(&self.id, &key, value);
    }
}

/// The handle a render hook receives: it exposes the per-module accessor.
pub struct ModuleInfo {
    pub meta: Meta,
}

/// The render context bound to one dispatcher's metadata store.
pub struct Context {
    pub meta_map: MetaMap,
}

impl Context {
    pub fn new(meta_map: MetaMap) -> (r: Self)
        ensures
            meta_entries(r.meta_map) == meta_entries(meta_map),
    {
        Context { meta_map }
    }

    /// The accessor for one module's metadata.
    pub fn get_module_info(&self, id: String) -> (r: ModuleInfo)
        ensures
            r.meta.id == id,
    {
        ModuleInfo { meta: Meta { id } }
    }
}

/// Law: a value set for a module and key is what a later get on that same
/// module and key reads back, and a key never written for a module reads
/// back as `Undefined`.
pub proof fn lemma_meta_set_then_get(
    entries: ValueMetaEntries,
    module: Seq<char>,
    key: Seq<char>,
    v: ValueView,
)
    ensures
        meta_lookup(meta_store(entries, module, key, v), module, key) == v,
        !module_entries(entries, module).contains_key(key) ==> meta_lookup(entries, module, key)
            == ValueView::Undefined,
{
}

} // verus!
