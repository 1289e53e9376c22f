//! The session registry: tab records keyed by id. A caller mutates a
//! tab by taking it out, holding it exclusively, and putting it back;
//! absent ids are a silent no-op, never an error.

use vstd::prelude::*;
use crate::tab::Tab;
use crate::tab::TabModel;

verus! {

/// The finite map a sequence of (id, tab) entries denotes. Entries are
/// kept unique by the registry, so the fold order does not matter.
pub open spec fn assoc_map(entries: Seq<(String, Tab)>) -> Map<Seq<char>, TabModel>
    decreases entries.len(),
{
    if entries.len() == 0 {
        Map::empty()
    } else {
        assoc_map(entries.drop_last()).insert(entries.last().0@, entries.last().1@)
    }
}

/// No two entries share an id.
pub open spec fn unique_keys(entries: Seq<(String, Tab)>) -> bool {
    forall|i: int, j: int| 0 <= i < j < entries.len() ==> entries[i].0@ != entries[j].0@
}

/// A key is in the denoted map exactly when some entry carries it.
pub proof fn lemma_assoc_contains(entries: Seq<(String, Tab)>, k: Seq<char>)
    ensures
        assoc_map(entries).contains_key(k) <==> (exists|i: int|
            0 <= i < entries.len() && entries[i].0@ == k),
    decreases entries.len(),
{
    if entries.len() > 0 {
        let prefix = entries.drop_last();
        lemma_assoc_contains(prefix, k);
        if entries.last().0@ == k {
            assert(entries[entries.len() - 1].0@ == k);
        }
        if exists|i: int| 0 <= i < entries.len() && entries[i].0@ == k {
            let i = choose|i: int| 0 <= i < entries.len() && entries[i].0@ == k;
            if i < entries.len() - 1 {
                assert(prefix[i].0@ == k);
            }
        }
    }
}

/// Under unique keys, the entry at an index gives the map's value at
/// its id.
pub proof fn lemma_assoc_value(entries: Seq<(String, Tab)>, i: int)
    requires
        unique_keys(entries),
        0 <= i < entries.len(),
    ensures
        assoc_map(entries).contains_key(entries[i].0@),
        assoc_map(entries)[entries[i].0@] == entries[i].1@,
    decreases entries.len(),
{
    let prefix = entries.drop_last();
    if i < entries.len() - 1 {
        assert(unique_keys(prefix));
        lemma_assoc_value(prefix, i);
        assert(entries[entries.len() - 1].0@ != entries[i].0@);
    }
}

/// Removing an entry removes exactly its key from the denoted map.
pub proof fn lemma_assoc_remove(entries: Seq<(String, Tab)>, i: int)
    requires
        unique_keys(entries),
        0 <= i < entries.len(),
    ensures
        assoc_map(entries.remove(i)) == assoc_map(entries).remove(entries[i].0@),
    decreases entries.len(),
{
    let prefix = entries.drop_last();
    let k = entries[i].0@;
    if i == entries.len() - 1 {
        assert(entries.remove(i) =~= prefix);
        lemma_assoc_contains(prefix, k);
        assert(forall|j: int| 0 <= j < prefix.len() ==> prefix[j].0@ != k);
        assert(assoc_map(entries).remove(k) =~= assoc_map(prefix));
    } else {
        let shorter = entries.remove(i);
        assert(shorter.drop_last() =~= prefix.remove(i));
        assert(shorter.last() == entries.last());
        assert(unique_keys(prefix));
        lemma_assoc_remove(prefix, i);
        assert(entries.last().0@ != k);
        assert(assoc_map(prefix).remove(k).insert(entries.last().0@, entries.last().1@)
            =~= assoc_map(prefix).insert(entries.last().0@, entries.last().1@).remove(k));
    }
}

/// Removing an entry keeps the remaining ids unique.
pub proof fn lemma_unique_remove(entries: Seq<(String, Tab)>, i: int)
    requires
        unique_keys(entries),
        0 <= i < entries.len(),
    ensures
        unique_keys(entries.remove(i)),
{
    let shorter = entries.remove(i);
    assert forall|a: int, b: int| 0 <= a < b < shorter.len() implies shorter[a].0@
        != shorter[b].0@ by {
        let a0 = if a < i { a } else { a + 1 };
        let b0 = if b < i { b } else { b + 1 };
        assert(shorter[a] == entries[a0]);
        assert(shorter[b] == entries[b0]);
    }
}

/// Appending an entry inserts exactly its key into the denoted map.
pub proof fn lemma_assoc_push(entries: Seq<(String, Tab)>, entry: (String, Tab))
    ensures
        assoc_map(entries.push(entry)) == assoc_map(entries).insert(entry.0@, entry.1@),
{
    assert(entries.push(entry).drop_last() =~= entries);
}

/// Appending an entry under a fresh id keeps the ids unique.
pub proof fn lemma_unique_push(entries: Seq<(String, Tab)>, entry: (String, Tab))
    requires
        unique_keys(entries),
        forall|j: int| 0 <= j < entries.len() ==> entries[j].0@ != entry.0@,
    ensures
        unique_keys(entries.push(entry)),
{
}

/// Safe storage of tab records, keyed by tab id.
pub struct SessionRegistry {
    entries: Vec<(String, Tab)>,
}

impl View for SessionRegistry {
    type V = Map<Seq<char>, TabModel>;

    closed spec fn view(&self) -> Map<Seq<char>, TabModel> {
        assoc_map(self.entries@)
    }
}

impl SessionRegistry {
    /// Internal shape: ids unique, every stored tab well-formed.
    pub closed spec fn wf(&self) -> bool {
        &&& unique_keys(self.entries@)
        &&& forall|i: int| 0 <= i < self.entries@.len() ==> self.entries@[i].1@.wf()
    }

    /// An empty registry.
    pub fn new() -> (r: SessionRegistry)
        ensures
            r.wf(),
            r@ == Map::<Seq<char>, TabModel>::empty(),
    {
        SessionRegistry { entries: Vec::new() }
    }

    /// The index of the entry carrying the id, if any.
    fn index_of(&self, tab_id: &String) -> (r: Option<usize>)
        ensures
            match r {
                Some(i) => i < self.entries@.len() && self.entries@[i as int].0@ == tab_id@,
                None => forall|j: int|
                    0 <= j < self.entries@.len() ==> self.entries@[j].0@ != tab_id@,
            },
    {
        let n = self.entries.len();
        let mut i: usize = 0;
        while i < n
            invariant
                n == self.entries@.len(),
                i <= n,
                forall|j: int| 0 <= j < i ==> self.entries@[j].0@ != tab_id@,
            decreases n - i,
        {
            if self.entries[i].0 == *tab_id {
                return Some(i);
            }
            i = i + 1;
        }
        None
    }

    /// Remove and return the named tab, handing the caller exclusive
    /// ownership of it; None when the id is absent.
    pub fn take(&mut self, tab_id: &String) -> (r: Option<Tab>)
        requires
            old(self).wf(),
        ensures
            final(self).wf(),
            match r {
                Some(tab) => old(self)@.contains_key(tab_id@) && tab@ == old(self)@[tab_id@]
                    && tab@.wf() && final(self)@ == old(self)@.remove(tab_id@),
                None => !old(self)@.contains_key(tab_id@) && final(self)@ == old(self)@,
            },
    {
        proof {
            lemma_assoc_contains(self.entries@, tab_id@);
        }
        match self.index_of(tab_id) {
            Some(i) => {
                let ghost e0 = self.entries@;
                proof {
                    lemma_assoc_value(e0, i as int);
                    lemma_assoc_remove(e0, i as int);
                    lemma_unique_remove(e0, i as int);
                }
                let entry = self.entries.remove(i);
                proof {
                    assert forall|j: int| 0 <= j < self.entries@.len() implies self.entries@[j].1@
                        .wf() by {
                        let j0 = if j < i { j } else { j + 1 };
                        assert(self.entries@[j] == e0[j0]);
                    }
                }
                Some(entry.1)
            },
            None => None,
        }
    }

    /// Insert a tab under an id not currently present.
    pub fn put(&mut self, tab_id: String, tab: Tab)
        requires
            old(self).wf(),
            !old(self)@.contains_key(tab_id@),
            tab@.wf(),
        ensures
            final(self).wf(),
            final(self)@ == old(self)@.insert(tab_id@, tab@),
    {
        let ghost e0 = self.entries@;
        let ghost gid: Seq<char> = tab_id@;
        let ghost gtab: TabModel = tab@;
        proof {
            lemma_assoc_contains(e0, gid);
        }
        self.entries.push((tab_id, tab));
        proof {
            let entry = self.entries@.last();
            assert(self.entries@ == e0.push(entry));
            assert(entry.0@ == gid && entry.1@ == gtab);
            lemma_assoc_push(e0, entry);
            lemma_unique_push(e0, entry);
        }
    }

    /// Insert a fresh tab under the id, resetting any tab already
    /// there: re-initializing an existing tab is an idempotent
    /// overwrite.
    pub fn create(&mut self, tab_id: String)
        requires
            old(self).wf(),
        ensures
            final(self).wf(),
            final(self)@ == old(self)@.insert(tab_id@, TabModel::init()),
    {
        let ghost gid: Seq<char> = tab_id@;
        let _evicted = self.take(&tab_id);
        self.put(tab_id, Tab::new());
        proof {
            assert(old(self)@.remove(gid).insert(gid, TabModel::init()) =~= old(self)@.insert(
                gid,
                TabModel::init(),
            ));
        }
    }

    /// Delete the named tab; a no-op when absent.
    pub fn remove(&mut self, tab_id: &String)
        requires
            old(self).wf(),
        ensures
            final(self).wf(),
            final(self)@ == old(self)@.remove(tab_id@),
    {
        let _removed = self.take(tab_id);
        proof {
            assert(old(self)@.remove(tab_id@) =~= self@);
        }
    }

    /// Read-only access to the named tab.
    pub fn get(&self, tab_id: &String) -> (r: Option<&Tab>)
        requires
            self.wf(),
        ensures
            match r {
                Some(tab) => self@.contains_key(tab_id@) && tab@ == self@[tab_id@],
                None => !self@.contains_key(tab_id@),
            },
    {
        proof {
            lemma_assoc_contains(self.entries@, tab_id@);
        }
        match self.index_of(tab_id) {
            Some(i) => {
                proof {
                    lemma_assoc_value(self.entries@, i as int);
                }
                Some(&self.entries[i].1)
            },
            None => None,
        }
    }

    /// Whether the id names a live tab.
    pub fn contains(&self, tab_id: &String) -> (r: bool)
        requires
            self.wf(),
        ensures
            r == self@.contains_key(tab_id@),
    {
        self.get(tab_id).is_some()
    }
}

} // verus!
