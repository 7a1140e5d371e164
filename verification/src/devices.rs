//! The logical mice of an installation, ordered by their keys.

use vstd::prelude::*;

use crate::device::DeviceId;
use crate::state::DeviceState;
use crate::text::{lemma_lex_irreflexive, lemma_lex_total, lemma_lex_transitive, lex_less};

verus! {

#[derive(Debug, PartialEq, Eq)]
struct DeviceEntry {
    key: DeviceId,
    state: DeviceState,
}

/// Logical mice by key, walked in the order of the keys' texts.
#[derive(Debug, PartialEq, Eq)]
pub struct DeviceMap {
    entries: Vec<DeviceEntry>,
}

spec fn strictly_ordered(entries: Seq<DeviceEntry>) -> bool {
    forall|i: int, j: int|
        #![trigger entries[i], entries[j]]
        0 <= i < j < entries.len() ==> lex_less(entries[i].key@, entries[j].key@)
}

spec fn key_seq(entries: Seq<DeviceEntry>) -> Seq<Seq<char>> {
    Seq::new(entries.len(), |i: int| entries[i].key@)
}

spec fn has_key(entries: Seq<DeviceEntry>, key: Seq<char>) -> bool {
    exists|i: int| 0 <= i < entries.len() && (#[trigger] entries[i]).key@ == key
}

spec fn place(entries: Seq<DeviceEntry>, key: Seq<char>) -> int {
    choose|i: int| 0 <= i < entries.len() && (#[trigger] entries[i]).key@ == key
}

spec fn entry_map(entries: Seq<DeviceEntry>) -> Map<Seq<char>, DeviceState> {
    Map::new(|key: Seq<char>| has_key(entries, key), |key: Seq<char>| entries[place(entries, key)].state)
}

proof fn lemma_unique(entries: Seq<DeviceEntry>, i: int, j: int)
    requires
        strictly_ordered(entries),
        0 <= i < entries.len(),
        0 <= j < entries.len(),
        entries[i].key@ == entries[j].key@,
    ensures
        i == j,
{
    lemma_lex_irreflexive(entries[i].key@);
}

proof fn lemma_entry(entries: Seq<DeviceEntry>, i: int)
    requires
        strictly_ordered(entries),
        0 <= i < entries.len(),
    ensures
        entry_map(entries).dom().contains(entries[i].key@),
        entry_map(entries)[entries[i].key@] == entries[i].state,
{
    let key = entries[i].key@;
    assert(has_key(entries, key));
    let p = place(entries, key);
    assert(0 <= p < entries.len() && entries[p].key@ == key);
    lemma_unique(entries, i, p);
}

impl View for DeviceMap {
    type V = Map<Seq<char>, DeviceState>;

    closed spec fn view(&self) -> Map<Seq<char>, DeviceState> {
        entry_map(self.entries@)
    }
}

impl DeviceMap {
    #[verifier::type_invariant]
    spec fn ordered(self) -> bool {
        strictly_ordered(self.entries@)
    }

    /// The keys in order.
    pub closed spec fn keys(self) -> Seq<Seq<char>> {
        key_seq(self.entries@)
    }

    /// The keys are listed in order, each once, and no other exists.
    pub open spec fn listed(self) -> bool {
        &&& forall|i: int, j: int|
            #![trigger self.keys()[i], self.keys()[j]]
            0 <= i < j < self.keys().len() ==> lex_less(self.keys()[i], self.keys()[j])
        &&& forall|i: int|
            0 <= i < self.keys().len() ==> self@.dom().contains(#[trigger] self.keys()[i])
        &&& forall|key: Seq<char>|
            #![trigger self@.dom().contains(key)]
            self@.dom().contains(key) ==> exists|i: int|
                0 <= i < self.keys().len() && #[trigger] self.keys()[i] == key
    }

    proof fn lemma_listed(entries: Seq<DeviceEntry>)
        requires
            strictly_ordered(entries),
        ensures
            forall|i: int, j: int|
                #![trigger key_seq(entries)[i], key_seq(entries)[j]]
                0 <= i < j < key_seq(entries).len() ==> lex_less(
                    key_seq(entries)[i],
                    key_seq(entries)[j],
                ),
            forall|i: int|
                0 <= i < key_seq(entries).len() ==> entry_map(entries).dom().contains(
                    #[trigger] key_seq(entries)[i],
                ),
            forall|key: Seq<char>|
                #![trigger entry_map(entries).dom().contains(key)]
                entry_map(entries).dom().contains(key) ==> exists|i: int|
                    0 <= i < key_seq(entries).len() && #[trigger] key_seq(entries)[i] == key,
    {
        assert forall|i: int| 0 <= i < key_seq(entries).len() implies entry_map(
            entries,
        ).dom().contains(#[trigger] key_seq(entries)[i]) by {
            lemma_entry(entries, i);
        }
        assert forall|key: Seq<char>| #[trigger]
            entry_map(entries).dom().contains(key) implies exists|i: int|
            0 <= i < key_seq(entries).len() && #[trigger] key_seq(entries)[i] == key by {
            let p = place(entries, key);
            assert(key_seq(entries)[p] == key);
        }
    }

    pub fn new() -> (r: DeviceMap)
        ensures
            r@ == Map::<Seq<char>, DeviceState>::empty(),
    {
        let r = DeviceMap { entries: Vec::new() };
        assert(r@ =~= Map::<Seq<char>, DeviceState>::empty());
        r
    }

    /// The number of mice; also states how they are listed.
    pub fn len(&self) -> (r: usize)
        ensures
            r == self.keys().len(),
            self.listed(),
    {
        proof {
            use_type_invariant(self);
            DeviceMap::lemma_listed(self.entries@);
            assert(self.keys() == key_seq(self.entries@));
            assert(self@ == entry_map(self.entries@));
            assert forall|key: Seq<char>| #[trigger] self@.dom().contains(key) implies exists|i: int|
                0 <= i < self.keys().len() && #[trigger] self.keys()[i] == key by {
                assert(entry_map(self.entries@).dom().contains(key));
            }
        }
        self.entries.len()
    }

    pub fn is_empty(&self) -> (r: bool)
        ensures
            r == (self.keys().len() == 0),
            r == (self@ == Map::<Seq<char>, DeviceState>::empty()),
    {
        proof {
            use_type_invariant(self);
            if self.entries@.len() == 0 {
                assert(self@ =~= Map::<Seq<char>, DeviceState>::empty());
            } else {
                lemma_entry(self.entries@, 0);
                assert(self@.dom().contains(self.entries@[0].key@));
            }
        }
        self.entries.len() == 0
    }

    pub fn key_at(&self, index: usize) -> (r: &DeviceId)
        requires
            index < self.keys().len(),
        ensures
            r@ == self.keys()[index as int],
    {
        &self.entries[index].key
    }

    pub fn state_at(&self, index: usize) -> (r: &DeviceState)
        requires
            index < self.keys().len(),
        ensures
            *r == self@[self.keys()[index as int]],
    {
        proof {
            use_type_invariant(self);
            lemma_entry(self.entries@, index as int);
        }
        &self.entries[index].state
    }

    fn find(&self, key: &DeviceId) -> (r: Option<usize>)
        ensures
            match r {
                Some(i) => i < self.entries@.len() && self.entries@[i as int].key@ == key@,
                None => !has_key(self.entries@, key@),
            },
    {
        let mut i: usize = 0;
        while i < self.entries.len()
            invariant
                i <= self.entries@.len(),
                forall|j: int| 0 <= j < i ==> (#[trigger] self.entries@[j]).key@ != key@,
            decreases self.entries@.len() - i,
        {
            if self.entries[i].key.same_key(key) {
                return Some(i);
            }
            i = i + 1;
        }
        None
    }

    pub fn get(&self, key: &DeviceId) -> (r: Option<&DeviceState>)
        ensures
            r is Some <==> self@.dom().contains(key@),
            r matches Some(state) ==> *state == self@[key@],
    {
        proof {
            use_type_invariant(self);
        }
        match self.find(key) {
            Some(i) => {
                proof {
                    lemma_entry(self.entries@, i as int);
                }
                Some(&self.entries[i].state)
            },
            None => None,
        }
    }

    pub fn contains_key(&self, key: &DeviceId) -> (r: bool)
        ensures
            r == self@.dom().contains(key@),
    {
        self.get(key).is_some()
    }

    /// Adds a mouse or replaces the one with the same key.
    pub fn insert(&mut self, key: DeviceId, state: DeviceState)
        ensures
            final(self)@ == old(self)@.insert(key@, state),
    {
        proof {
            use_type_invariant(&*self);
        }
        let ghost before = self.entries@;
        let mut entries: Vec<DeviceEntry> = Vec::new();
        std::mem::swap(&mut entries, &mut self.entries);
        let mut at: usize = 0;
        while at < entries.len() && entries[at].key.before(&key)
            invariant
                at <= entries@.len(),
                entries@ == before,
                forall|j: int| 0 <= j < at ==> lex_less((#[trigger] entries@[j]).key@, key@),
            decreases entries@.len() - at,
        {
            at = at + 1;
        }
        if at < entries.len() && entries[at].key.same_key(&key) {
            let ghost fresh = DeviceEntry { key, state };
            entries[at] = DeviceEntry { key, state };
            proof {
                assert(entries@ =~= before.update(at as int, fresh));
                lemma_replaced(before, at as int, fresh);
            }
        } else {
            let ghost fresh = DeviceEntry { key, state };
            entries.insert(at, DeviceEntry { key, state });
            proof {
                if at < before.len() {
                    lemma_lex_total(before[at as int].key@, key@);
                }
                lemma_inserted(before, at as int, fresh);
            }
        }
        self.entries = entries;
    }

    /// Takes a mouse out.
    pub fn remove(&mut self, key: &DeviceId) -> (r: Option<DeviceState>)
        ensures
            final(self)@ == old(self)@.remove(key@),
            r is Some <==> old(self)@.dom().contains(key@),
            r matches Some(state) ==> state == old(self)@[key@],
    {
        proof {
            use_type_invariant(&*self);
        }
        let ghost before = self.entries@;
        match self.find(key) {
            None => {
                assert(self@ =~= old(self)@.remove(key@));
                None
            },
            Some(i) => {
                let mut entries: Vec<DeviceEntry> = Vec::new();
                std::mem::swap(&mut entries, &mut self.entries);
                let taken = entries.remove(i);
                proof {
                    lemma_entry(before, i as int);
                    lemma_removed(before, i as int);
                }
                self.entries = entries;
                Some(taken.state)
            },
        }
    }

    /// Takes every mouse out.
    pub fn clear(&mut self)
        ensures
            final(self)@ == Map::<Seq<char>, DeviceState>::empty(),
    {
        self.entries = Vec::new();
        assert(self@ =~= Map::<Seq<char>, DeviceState>::empty());
    }
}

proof fn lemma_replaced(entries: Seq<DeviceEntry>, at: int, fresh: DeviceEntry)
    requires
        strictly_ordered(entries),
        0 <= at < entries.len(),
        entries[at].key@ == fresh.key@,
    ensures
        strictly_ordered(entries.update(at, fresh)),
        entry_map(entries.update(at, fresh)) == entry_map(entries).insert(fresh.key@, fresh.state),
{
    let after = entries.update(at, fresh);
    assert(strictly_ordered(after)) by {
        assert forall|i: int, j: int|
            #![trigger after[i], after[j]]
            0 <= i < j < after.len() implies lex_less(after[i].key@, after[j].key@) by {
            assert(after[i].key@ == entries[i].key@);
            assert(after[j].key@ == entries[j].key@);
        }
    }
    let m = entry_map(entries).insert(fresh.key@, fresh.state);
    assert forall|key: Seq<char>| entry_map(after).dom().contains(key) == m.dom().contains(key) by {
        if has_key(after, key) {
            let p = place(after, key);
            assert(entries[p].key@ == key);
        }
        if has_key(entries, key) {
            let p = place(entries, key);
            assert(after[p].key@ == key);
        }
        if key == fresh.key@ {
            assert(after[at].key@ == key);
        }
    }
    assert forall|key: Seq<char>| entry_map(after).dom().contains(key) implies entry_map(after)[key]
        == m[key] by {
        let p = place(after, key);
        lemma_entry(after, p);
        if key == fresh.key@ {
            lemma_unique(after, p, at);
        } else {
            lemma_entry(entries, p);
        }
    }
    assert(entry_map(after) =~= m);
}

proof fn lemma_inserted(entries: Seq<DeviceEntry>, at: int, fresh: DeviceEntry)
    requires
        strictly_ordered(entries),
        0 <= at <= entries.len(),
        forall|j: int| 0 <= j < at ==> lex_less((#[trigger] entries[j]).key@, fresh.key@),
        at < entries.len() ==> lex_less(fresh.key@, entries[at].key@),
    ensures
        strictly_ordered(entries.insert(at, fresh)),
        entry_map(entries.insert(at, fresh)) == entry_map(entries).insert(fresh.key@, fresh.state),
{
    let after = entries.insert(at, fresh);
    assert forall|i: int| 0 <= i < after.len() implies #[trigger] after[i] == (if i < at {
        entries[i]
    } else if i == at {
        fresh
    } else {
        entries[i - 1]
    }) by {}
    assert(strictly_ordered(after)) by {
        assert forall|i: int, j: int|
            #![trigger after[i], after[j]]
            0 <= i < j < after.len() implies lex_less(after[i].key@, after[j].key@) by {
            if i == at {
                if j - 1 > at {
                    assert(lex_less(entries[at].key@, entries[j - 1].key@));
                    lemma_lex_transitive(fresh.key@, entries[at].key@, entries[j - 1].key@);
                }
            } else if j == at {
                assert(lex_less(entries[i].key@, fresh.key@));
            } else if i < at && j < at {
                assert(lex_less(entries[i].key@, entries[j].key@));
            } else if i < at {
                assert(lex_less(entries[i].key@, entries[j - 1].key@));
            } else {
                assert(lex_less(entries[i - 1].key@, entries[j - 1].key@));
            }
        }
    }
    let m = entry_map(entries).insert(fresh.key@, fresh.state);
    assert forall|key: Seq<char>| entry_map(after).dom().contains(key) == m.dom().contains(key) by {
        if has_key(after, key) {
            let p = place(after, key);
            if p < at {
                assert(entries[p].key@ == key);
            } else if p > at {
                assert(entries[p - 1].key@ == key);
            }
        }
        if has_key(entries, key) {
            let p = place(entries, key);
            if p < at {
                assert(after[p].key@ == key);
            } else {
                assert(after[p + 1].key@ == key);
            }
        }
        if key == fresh.key@ {
            assert(after[at].key@ == key);
        }
    }
    assert forall|key: Seq<char>| entry_map(after).dom().contains(key) implies entry_map(after)[key]
        == m[key] by {
        let p = place(after, key);
        lemma_entry(after, p);
        if key == fresh.key@ {
            assert(after[at].key@ == key);
            lemma_unique(after, p, at);
        } else if p < at {
            lemma_entry(entries, p);
        } else {
            lemma_entry(entries, p - 1);
        }
    }
    assert(entry_map(after) =~= m);
}

proof fn lemma_removed(entries: Seq<DeviceEntry>, at: int)
    requires
        strictly_ordered(entries),
        0 <= at < entries.len(),
    ensures
        strictly_ordered(entries.remove(at)),
        entry_map(entries.remove(at)) == entry_map(entries).remove(entries[at].key@),
{
    let after = entries.remove(at);
    assert forall|i: int| 0 <= i < after.len() implies #[trigger] after[i] == (if i < at {
        entries[i]
    } else {
        entries[i + 1]
    }) by {}
    assert(strictly_ordered(after)) by {
        assert forall|i: int, j: int|
            #![trigger after[i], after[j]]
            0 <= i < j < after.len() implies lex_less(after[i].key@, after[j].key@) by {
            let p = if i < at { i } else { i + 1 };
            let q = if j < at { j } else { j + 1 };
            assert(lex_less(entries[p].key@, entries[q].key@));
        }
    }
    let gone = entries[at].key@;
    let m = entry_map(entries).remove(gone);
    assert forall|key: Seq<char>| entry_map(after).dom().contains(key) == m.dom().contains(key) by {
        if has_key(after, key) {
            let p = place(after, key);
            let q = if p < at { p } else { p + 1 };
            assert(entries[q].key@ == key);
            if key == gone {
                lemma_unique(entries, q, at);
            }
        }
        if has_key(entries, key) && key != gone {
            let p = place(entries, key);
            let q = if p < at { p } else { p - 1 };
            assert(after[q].key@ == key);
        }
    }
    assert forall|key: Seq<char>| entry_map(after).dom().contains(key) implies entry_map(after)[key]
        == m[key] by {
        let p = place(after, key);
        lemma_entry(after, p);
        let q = if p < at { p } else { p + 1 };
        lemma_entry(entries, q);
        assert(entries[q].key@ == key);
        if key == gone {
            lemma_unique(entries, q, at);
        }
    }
    assert(entry_map(after) =~= m);
}

} // verus!
