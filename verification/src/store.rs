//! The snapshot store: keyed memory of the previously observed items.
//!
//! The store maps a listing's stable identifier to the last-seen record.
//! Its mathematical view is a `Map<Seq<char>, ItemView>`; the representation
//! keeps one entry per identifier.

use vstd::prelude::*;
use vstd::pervasive::VecAdditionalExecFns;

use crate::item_summary::ItemSummary;
use crate::item_summary::ItemView;
use crate::text::str_eq;

verus! {

/// Keyed memory of previously observed items.
pub struct SnapshotStore {
    entries: Vec<(String, ItemSummary)>,
}

/// The map held by a sequence of key/item entries, later entries winning.
spec fn map_of(entries: Seq<(String, ItemSummary)>) -> Map<Seq<char>, ItemView>
    decreases entries.len(),
{
    if entries.len() == 0 {
        Map::empty()
    } else {
        map_of(entries.drop_last()).insert(entries.last().0@, entries.last().1@)
    }
}

/// No two entries share a key.
spec fn distinct_keys(entries: Seq<(String, ItemSummary)>) -> bool {
    forall|i: int, j: int|
        0 <= i < j < entries.len() ==> entries[i].0@ != entries[j].0@
}

proof fn lemma_map_of_contains(entries: Seq<(String, ItemSummary)>, k: Seq<char>)
    ensures
        map_of(entries).contains_key(k) <==> (exists|i: int|
            0 <= i < entries.len() && entries[i].0@ == k),
    decreases entries.len(),
{
    if entries.len() > 0 {
        lemma_map_of_contains(entries.drop_last(), k);
        if entries.last().0@ == k {
            assert(entries[entries.len() - 1].0@ == k);
        } else if map_of(entries).contains_key(k) {
            let i = choose|i: int|
                0 <= i < entries.drop_last().len() && entries.drop_last()[i].0@ == k;
            assert(entries[i].0@ == k);
        } else if exists|i: int| 0 <= i < entries.len() && entries[i].0@ == k {
            let i = choose|i: int| 0 <= i < entries.len() && entries[i].0@ == k;
            assert(entries.drop_last()[i].0@ == k);
        }
    }
}

proof fn lemma_map_of_finite(entries: Seq<(String, ItemSummary)>)
    ensures
        map_of(entries).dom().finite(),
    decreases entries.len(),
{
    if entries.len() > 0 {
        lemma_map_of_finite(entries.drop_last());
    }
}

proof fn lemma_map_of_card(entries: Seq<(String, ItemSummary)>)
    requires
        distinct_keys(entries),
    ensures
        map_of(entries).dom().finite(),
        map_of(entries).dom().len() == entries.len(),
    decreases entries.len(),
{
    if entries.len() > 0 {
        assert(distinct_keys(entries.drop_last())) by {
            assert(forall|i: int, j: int|
                0 <= i < j < entries.drop_last().len() ==> entries.drop_last()[i].0@
                    != entries.drop_last()[j].0@);
        }
        lemma_map_of_card(entries.drop_last());
        lemma_map_of_contains(entries.drop_last(), entries.last().0@);
        assert(!map_of(entries.drop_last()).contains_key(entries.last().0@)) by {
            if exists|i: int|
                0 <= i < entries.drop_last().len() && entries.drop_last()[i].0@
                    == entries.last().0@ {
                let i = choose|i: int|
                    0 <= i < entries.drop_last().len() && entries.drop_last()[i].0@
                        == entries.last().0@;
                assert(entries[i].0@ == entries[entries.len() - 1].0@);
            }
        }
    }
}

proof fn lemma_map_of_get(entries: Seq<(String, ItemSummary)>, i: int)
    requires
        distinct_keys(entries),
        0 <= i < entries.len(),
    ensures
        map_of(entries).contains_key(entries[i].0@),
        map_of(entries)[entries[i].0@] == entries[i].1@,
    decreases entries.len(),
{
    if i == entries.len() - 1 {
        assert(entries.last() == entries[i]);
    } else {
        assert(distinct_keys(entries.drop_last()));
        assert(entries.drop_last()[i] == entries[i]);
        lemma_map_of_get(entries.drop_last(), i);
        assert(entries.last().0@ != entries[i].0@);
    }
}

proof fn lemma_map_of_update(
    entries: Seq<(String, ItemSummary)>,
    i: int,
    e: (String, ItemSummary),
)
    requires
        distinct_keys(entries),
        0 <= i < entries.len(),
        e.0@ == entries[i].0@,
    ensures
        distinct_keys(entries.update(i, e)),
        map_of(entries.update(i, e)) == map_of(entries).insert(e.0@, e.1@),
    decreases entries.len(),
{
    let u = entries.update(i, e);
    assert(distinct_keys(u));
    if i == entries.len() - 1 {
        assert(u.drop_last() =~= entries.drop_last());
        assert(u.last() == e);
        assert(map_of(u) == map_of(entries.drop_last()).insert(e.0@, e.1@));
        assert(map_of(entries.drop_last()).insert(e.0@, e.1@) =~= map_of(
            entries,
        ).insert(e.0@, e.1@));
    } else {
        assert(distinct_keys(entries.drop_last()));
        assert(entries.drop_last()[i] == entries[i]);
        lemma_map_of_update(entries.drop_last(), i, e);
        assert(u.drop_last() =~= entries.drop_last().update(i, e));
        assert(u.last() == entries.last());
        assert(map_of(u) == map_of(entries.drop_last()).insert(e.0@, e.1@).insert(
            entries.last().0@,
            entries.last().1@,
        ));
        assert(entries.last().0@ != e.0@);
        assert(map_of(entries.drop_last()).insert(e.0@, e.1@).insert(
            entries.last().0@,
            entries.last().1@,
        ) =~= map_of(entries).insert(e.0@, e.1@));
    }
}

impl View for SnapshotStore {
    type V = Map<Seq<char>, ItemView>;

    closed spec fn view(&self) -> Map<Seq<char>, ItemView> {
        map_of(self.entries@)
    }
}

impl SnapshotStore {
    /// The store keeps exactly one entry per identifier.
    pub closed spec fn wf(self) -> bool {
        distinct_keys(self.entries@)
    }

    /// An empty store: the cold-start state before the warm-up cycle.
    pub fn new() -> (s: SnapshotStore)
        ensures
            s.wf(),
            s@ == Map::<Seq<char>, ItemView>::empty(),
    {
        SnapshotStore { entries: Vec::new() }
    }

    /// How many items the store remembers.
    pub fn len(&self) -> (n: usize)
        requires
            self.wf(),
        ensures
            n == self@.dom().len(),
    {
        proof {
            lemma_map_of_card(self.entries@);
        }
        self.entries.len()
    }

    /// The last-seen record under `id`, if any.
    pub fn get(&self, id: &str) -> (r: Option<&ItemSummary>)
        requires
            self.wf(),
        ensures
            match r {
                Option::None => !self@.contains_key(id@),
                Option::Some(item) => self@.contains_key(id@) && self@[id@] == item@,
            },
    {
        let n = self.entries.len();
        let mut i: usize = 0;
        while i < n
            invariant
                n == self.entries.len(),
                i <= n,
                self.wf(),
                forall|j: int| 0 <= j < i ==> self.entries@[j].0@ != id@,
            decreases n - i,
        {
            if str_eq(self.entries[i].0.as_str(), id) {
                proof {
                    lemma_map_of_get(self.entries@, i as int);
                }
                return Some(&self.entries[i].1);
            }
            i = i + 1;
        }
        proof {
            lemma_map_of_contains(self.entries@, id@);
        }
        None
    }

    /// Inserts or overwrites the record under `id` and hands back the record
    /// it replaced, if one was there.
    pub fn put(&mut self, id: String, item: ItemSummary) -> (prev: Option<ItemSummary>)
        requires
            old(self).wf(),
        ensures
            final(self).wf(),
            final(self)@ == old(self)@.insert(id@, item@),
            match prev {
                Option::None => !old(self)@.contains_key(id@),
                Option::Some(p) => old(self)@.contains_key(id@) && p@ == old(self)@[id@],
            },
    {
        let n = self.entries.len();
        let mut i: usize = 0;
        while i < n
            invariant
                n == self.entries.len(),
                i <= n,
                self == old(self),
                self.wf(),
                forall|j: int| 0 <= j < i ==> self.entries@[j].0@ != id@,
            decreases n - i,
        {
            if str_eq(self.entries[i].0.as_str(), id.as_str()) {
                let prev_item = self.entries[i].1.clone();
                proof {
                    lemma_map_of_get(self.entries@, i as int);
                    lemma_map_of_update(self.entries@, i as int, (id, item));
                }
                self.entries.set(i, (id, item));
                return Some(prev_item);
            }
            i = i + 1;
        }
        proof {
            lemma_map_of_contains(self.entries@, id@);
        }
        self.entries.push((id, item));
        proof {
            assert(self.entries@.drop_last() =~= old(self).entries@);
            assert(self.entries@.last() == (id, item));
        }
        None
    }
}

} // verus!
