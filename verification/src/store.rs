use vstd::prelude::*;

use vstd::hash_map::StringHashMap;

verus! {

/// The persistence capability: a key-value interface any durable backend can
/// implement, so the authentication client never depends on a concrete
/// storage technology. An adapter is a pure storage facade: it stores
/// faithfully and applies no business logic of its own. Absence of a key is
/// not an error.
pub trait PersistenceAdapter: Sized {
    /// The stored entries, keyed by the key's characters.
    spec fn contents(&self) -> Map<Seq<char>, String>;

    /// Read the stored value, if any.
    fn get(&self, key: &str) -> (r: Option<String>)
        ensures
            self.contents().contains_key(key@) ==> (r matches Some(v) && v
                == self.contents()[key@]),
            !self.contents().contains_key(key@) ==> r is None,
    ;

    /// Overwrite the value stored at the key.
    fn set(&mut self, key: &str, value: String)
        ensures
            final(self).contents() == old(self).contents().insert(key@, value),
    ;

    /// Report presence without materializing the value.
    fn has(&self, key: &str) -> (r: bool)
        ensures
            r == self.contents().contains_key(key@),
    ;

    /// Remove the entry and report whether a value existed.
    fn delete(&mut self, key: &str) -> (r: bool)
        ensures
            r == old(self).contents().contains_key(key@),
            final(self).contents() == old(self).contents().remove(key@),
    ;
}

/// The reference persistence adapter: an in-process store, local to the
/// native side, used when the host supplies no durable backend of its own.
pub struct ClerkMemoryStore {
    entries: StringHashMap<String>,
}

impl ClerkMemoryStore {
    /// An empty store.
    pub fn new() -> (r: Self)
        ensures
            r.contents() == Map::<Seq<char>, String>::empty(),
    {
        ClerkMemoryStore { entries: StringHashMap::new() }
    }
}

impl PersistenceAdapter for ClerkMemoryStore {
    closed spec fn contents(&self) -> Map<Seq<char>, String> {
        self.entries@
    }

    fn get(&self, key: &str) -> (r: Option<String>) {
        match self.entries.get(key) {
            Some(v) => Some(v.clone()),
            None => None,
        }
    }

    fn set(&mut self, key: &str, value: String) {
        self.entries.insert(key.to_owned(), value);
    }

    fn has(&self, key: &str) -> (r: bool) {
        self.entries.contains_key(key)
    }

    fn delete(&mut self, key: &str) -> (r: bool) {
        let existed = self.entries.contains_key(key);
        self.entries.remove(key);
        existed
    }
}

/// Persistence round-trip law: storing a value makes it exactly what any
/// adapter returns for that key, and removing the key leaves nothing behind
/// for `has` to report.
pub proof fn lemma_store_round_trip(m: Map<Seq<char>, String>, k: Seq<char>, v: String)
    ensures
        m.insert(k, v).contains_key(k),
        m.insert(k, v)[k] == v,
        !m.remove(k).contains_key(k),
{
}

} // verus!
