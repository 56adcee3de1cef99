//! The identifier-only variant of the snapshot memory: the set of item
//! identifiers seen so far. This is the shape that is persisted as a
//! newline-delimited list and restored at startup.

use vstd::prelude::*;

use crate::text::str_eq;

verus! {

/// A set of item identifiers.
#[derive(Debug)]
pub struct IdDatabase {
    ids: Vec<String>,
}

/// The set held by a sequence of identifier strings.
spec fn set_of(ids: Seq<String>) -> Set<Seq<char>>
    decreases ids.len(),
{
    if ids.len() == 0 {
        Set::empty()
    } else {
        set_of(ids.drop_last()).insert(ids.last()@)
    }
}

/// No identifier occurs twice.
spec fn distinct_ids(ids: Seq<String>) -> bool {
    forall|i: int, j: int| 0 <= i < j < ids.len() ==> ids[i]@ != ids[j]@
}

proof fn lemma_set_of_contains(ids: Seq<String>, k: Seq<char>)
    ensures
        set_of(ids).contains(k) <==> (exists|i: int| 0 <= i < ids.len() && ids[i]@ == k),
    decreases ids.len(),
{
    if ids.len() > 0 {
        lemma_set_of_contains(ids.drop_last(), k);
        if ids.last()@ == k {
            assert(ids[ids.len() - 1]@ == k);
        } else if set_of(ids).contains(k) {
            let i = choose|i: int| 0 <= i < ids.drop_last().len() && ids.drop_last()[i]@ == k;
            assert(ids[i]@ == k);
        } else if exists|i: int| 0 <= i < ids.len() && ids[i]@ == k {
            let i = choose|i: int| 0 <= i < ids.len() && ids[i]@ == k;
            assert(ids.drop_last()[i]@ == k);
        }
    }
}

proof fn lemma_set_of_card(ids: Seq<String>)
    requires
        distinct_ids(ids),
    ensures
        set_of(ids).finite(),
        set_of(ids).len() == ids.len(),
    decreases ids.len(),
{
    if ids.len() > 0 {
        assert(distinct_ids(ids.drop_last()));
        lemma_set_of_card(ids.drop_last());
        lemma_set_of_contains(ids.drop_last(), ids.last()@);
        assert(!set_of(ids.drop_last()).contains(ids.last()@)) by {
            if exists|i: int|
                0 <= i < ids.drop_last().len() && ids.drop_last()[i]@ == ids.last()@ {
                let i = choose|i: int|
                    0 <= i < ids.drop_last().len() && ids.drop_last()[i]@ == ids.last()@;
                assert(ids[i]@ == ids[ids.len() - 1]@);
            }
        }
    }
}

impl View for IdDatabase {
    type V = Set<Seq<char>>;

    closed spec fn view(&self) -> Set<Seq<char>> {
        set_of(self.ids@)
    }
}

impl IdDatabase {
    /// The database keeps each identifier once.
    pub closed spec fn wf(self) -> bool {
        distinct_ids(self.ids@)
    }

    /// An empty database.
    pub fn new() -> (db: IdDatabase)
        ensures
            db.wf(),
            db@ == Set::<Seq<char>>::empty(),
    {
        IdDatabase { ids: Vec::new() }
    }

    /// Whether `id` is already known.
    pub fn contains(&self, id: &str) -> (r: bool)
        requires
            self.wf(),
        ensures
            r == self@.contains(id@),
    {
        let n = self.ids.len();
        let mut i: usize = 0;
        while i < n
            invariant
                n == self.ids.len(),
                i <= n,
                forall|j: int| 0 <= j < i ==> self.ids@[j]@ != id@,
            decreases n - i,
        {
            if str_eq(self.ids[i].as_str(), id) {
                proof {
                    lemma_set_of_contains(self.ids@, id@);
                }
                return true;
            }
            i = i + 1;
        }
        proof {
            lemma_set_of_contains(self.ids@, id@);
        }
        false
    }

    /// Records `id` as known.
    pub fn add(&mut self, id: &str)
        requires
            old(self).wf(),
        ensures
            final(self).wf(),
            final(self)@ == old(self)@.insert(id@),
    {
        if !self.contains(id) {
            self.ids.push(id.to_owned());
            proof {
                assert(self.ids@.drop_last() =~= old(self).ids@);
                assert(self.ids@.last()@ == id@);
                lemma_set_of_contains(old(self).ids@, id@);
            }
        } else {
            proof {
                assert(old(self)@.insert(id@) =~= old(self)@);
            }
        }
    }

    /// How many identifiers are known.
    pub fn len(&self) -> (n: usize)
        requires
            self.wf(),
        ensures
            n == self@.len(),
    {
        proof {
            lemma_set_of_card(self.ids@);
        }
        self.ids.len()
    }

    /// Whether no identifier is known yet.
    pub fn is_empty(&self) -> (r: bool)
        requires
            self.wf(),
        ensures
            r == (self@ == Set::<Seq<char>>::empty()),
    {
        proof {
            lemma_set_of_card(self.ids@);
            if self.ids@.len() == 0 {
                assert(self@ =~= Set::<Seq<char>>::empty());
            } else {
                assert(self@.contains(self.ids@.last()@));
            }
        }
        self.ids.len() == 0
    }

    /// The identifier at position `i`, for writing the database out one line
    /// at a time.
    pub fn id_at(&self, i: usize) -> (id: &String)
        requires
            self.wf(),
            i < self@.len(),
        ensures
            self@.contains(id@),
    {
        proof {
            lemma_set_of_card(self.ids@);
            lemma_set_of_contains(self.ids@, self.ids@[i as int]@);
        }
        &self.ids[i]
    }
}

} // verus!
