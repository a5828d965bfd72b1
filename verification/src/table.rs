//! A table from identifiers to values that keeps its identifiers in order, so
//! that a lookup halves the table at every step.

use crate::text::compare_text;
use crate::text::lemma_text_before_irreflexive;
use crate::text::lemma_text_before_transitive;
use crate::text::text_before;
use crate::text::texts;
use crate::text::Place;
use vstd::prelude::*;

verus! {

/// The identifiers stand in table order, so none occurs twice.
pub open spec fn ascending(ids: Seq<Seq<char>>) -> bool {
    forall|i: int, j: int|
        0 <= i < j < ids.len() ==> text_before(#[trigger] ids[i], #[trigger] ids[j])
}

/// The keys of `map` are exactly the first `n` identifiers of `ids`.
pub open spec fn holds_prefix<V>(map: Map<Seq<char>, V>, ids: Seq<Seq<char>>, n: int) -> bool {
    forall|id: Seq<char>| #[trigger]
        map.contains_key(id) <==> exists|j: int| 0 <= j < n && ids[j] == id
}

/// A map that holds the first `n` identifiers of a list, and not the next,
/// holds the first `n + 1` once the next is entered; the entries that were
/// there stay as they were, and the next differs from all of them.
pub proof fn lemma_insert_next<V>(before: Map<Seq<char>, V>, ids: Seq<Seq<char>>, n: int, value: V)
    requires
        0 <= n < ids.len(),
        holds_prefix(before, ids, n),
        !before.contains_key(ids[n]),
    ensures
        holds_prefix(before.insert(ids[n], value), ids, n + 1),
        before.insert(ids[n], value)[ids[n]] == value,
        forall|j: int|
            0 <= j < n ==> ids[j] != ids[n] && #[trigger] before.insert(ids[n], value)[ids[j]]
                == before[ids[j]],
{
    let after = before.insert(ids[n], value);
    assert forall|j: int| 0 <= j < n implies ids[j] != ids[n] by {
        assert(before.contains_key(ids[j]));
    }
    assert forall|id: Seq<char>| #[trigger] after.contains_key(id) <==> exists|j: int|
        0 <= j < n + 1 && ids[j] == id by {
        if id != ids[n] && before.contains_key(id) {
            let j = choose|j: int| 0 <= j < n && ids[j] == id;
            assert(0 <= j < n + 1 && ids[j] == id);
        }
    }
}

/// A table from identifiers to values.
///
/// Its contents are the map `self@`. Behind that stand the identifiers in
/// ascending order, `ids()`, and the value of each at the same place in
/// `items()`.
#[derive(Debug)]
pub struct SortedTable<V> {
    keys: Vec<String>,
    values: Vec<V>,
}

impl<V> View for SortedTable<V> {
    type V = Map<Seq<char>, V>;

    open spec fn view(&self) -> Map<Seq<char>, V> {
        Map::new(
            |id: Seq<char>| self.ids().contains(id),
            |id: Seq<char>| self.items()[self.ids().index_of(id)],
        )
    }
}

impl<V> SortedTable<V> {
    /// The identifiers of the table, in its order.
    pub closed spec fn ids(&self) -> Seq<Seq<char>> {
        texts(self.keys@)
    }

    /// The values of the table, each at the place of its identifier.
    pub closed spec fn items(&self) -> Seq<V> {
        self.values@
    }

    /// What every table that this module hands out satisfies.
    pub open spec fn wf(&self) -> bool {
        &&& self.ids().len() == self.items().len()
        &&& ascending(self.ids())
    }

    /// The identifier at a place of the table maps to the value at that
    /// place.
    pub proof fn lemma_entry(&self, i: int)
        requires
            self.wf(),
            0 <= i < self.ids().len(),
        ensures
            self@.contains_key(self.ids()[i]),
            self@[self.ids()[i]] == self.items()[i],
            self.ids().index_of(self.ids()[i]) == i,
    {
        let ids = self.ids();
        assert(ids.contains(ids[i]));
        let j = ids.index_of(ids[i]);
        if j < i {
            lemma_text_before_irreflexive(ids[j], ids[i]);
        } else if i < j {
            lemma_text_before_irreflexive(ids[i], ids[j]);
        }
    }

    /// The identifiers of the table are exactly the keys of its map.
    pub proof fn lemma_keys(&self)
        requires
            self.wf(),
        ensures
            self@.dom() =~= self.ids().to_set(),
            forall|i: int|
                0 <= i < self.ids().len() ==> self@.contains_key(#[trigger] self.ids()[i])
                    && self@[self.ids()[i]] == self.items()[i],
    {
        assert forall|i: int| 0 <= i < self.ids().len() implies self@.contains_key(
            #[trigger] self.ids()[i],
        ) && self@[self.ids()[i]] == self.items()[i] by {
            self.lemma_entry(i);
        }
    }

    /// The empty table.
    pub fn new() -> (table: Self)
        ensures
            table.wf(),
            table@ == Map::<Seq<char>, V>::empty(),
            table.ids().len() == 0,
    {
        let table = SortedTable { keys: Vec::new(), values: Vec::new() };
        proof {
            assert(table.ids() =~= Seq::<Seq<char>>::empty());
            assert(table@ =~= Map::<Seq<char>, V>::empty());
        }
        table
    }

    /// The number of entries.
    pub fn len(&self) -> (n: usize)
        requires
            self.wf(),
        ensures
            n == self.ids().len(),
    {
        self.keys.len()
    }

    /// The identifier at place `i`.
    pub fn id_at(&self, i: usize) -> (id: &str)
        requires
            self.wf(),
            i < self.ids().len(),
        ensures
            id@ == self.ids()[i as int],
    {
        self.keys[i].as_str()
    }

    /// The value at place `i`.
    pub fn item_at(&self, i: usize) -> (item: &V)
        requires
            self.wf(),
            i < self.ids().len(),
        ensures
            *item == self.items()[i as int],
            self@.contains_key(self.ids()[i as int]),
            *item == self@[self.ids()[i as int]],
    {
        proof {
            self.lemma_entry(i as int);
        }
        &self.values[i]
    }

    /// Finds the place of `id`, or else the place where it would have to
    /// stand: every identifier to the left of that comes before `id`, and
    /// `id` comes before every other.
    fn search(&self, id: &str) -> (r: Result<usize, usize>)
        requires
            self.wf(),
        ensures
            match r {
                Ok(place) => place < self.ids().len() && self.ids()[place as int] == id@,
                Err(place) => {
                    &&& place <= self.ids().len()
                    &&& forall|j: int| 0 <= j < place ==> text_before(#[trigger] self.ids()[j], id@)
                    &&& forall|j: int|
                        place <= j < self.ids().len() ==> text_before(
                            id@,
                            #[trigger] self.ids()[j],
                        )
                },
            },
    {
        let ghost ids = self.ids();
        let mut low: usize = 0;
        let mut high: usize = self.keys.len();
        while low < high
            invariant
                self.wf(),
                ids == self.ids(),
                low <= high <= ids.len(),
                ids.len() == self.keys@.len(),
                forall|j: int| 0 <= j < low ==> text_before(#[trigger] ids[j], id@),
                forall|j: int| high <= j < ids.len() ==> text_before(id@, #[trigger] ids[j]),
            decreases high - low,
        {
            let middle = low + (high - low) / 2;
            assert(ids[middle as int] == self.keys@[middle as int]@);
            match compare_text(self.keys[middle].as_str(), id) {
                Place::Same => {
                    return Ok(middle);
                },
                Place::Before => {
                    proof {
                        assert forall|j: int| 0 <= j < middle + 1 implies text_before(
                            #[trigger] ids[j],
                            id@,
                        ) by {
                            if j < middle {
                                lemma_text_before_transitive(ids[j], ids[middle as int], id@);
                            }
                        }
                    }
                    low = middle + 1;
                },
                Place::After => {
                    proof {
                        assert forall|j: int| middle <= j < ids.len() implies text_before(
                            id@,
                            #[trigger] ids[j],
                        ) by {
                            if middle < j {
                                lemma_text_before_transitive(id@, ids[middle as int], ids[j]);
                            }
                        }
                    }
                    high = middle;
                },
            }
        }
        Err(low)
    }

    /// An identifier with a place to stand at, as `search` finds it, is not
    /// in the table.
    proof fn lemma_absent(&self, id: Seq<char>, place: int)
        requires
            self.wf(),
            0 <= place <= self.ids().len(),
            forall|j: int| 0 <= j < place ==> text_before(#[trigger] self.ids()[j], id),
            forall|j: int| place <= j < self.ids().len() ==> text_before(id, #[trigger] self.ids()[j]),
        ensures
            !self@.contains_key(id),
    {
        if self.ids().contains(id) {
            let j = self.ids().index_of(id);
            if j < place {
                lemma_text_before_irreflexive(self.ids()[j], id);
            } else {
                lemma_text_before_irreflexive(id, self.ids()[j]);
            }
        }
    }

    /// Whether the table has an entry for `id`.
    pub fn contains(&self, id: &str) -> (r: bool)
        requires
            self.wf(),
        ensures
            r == self@.contains_key(id@),
    {
        match self.search(id) {
            Ok(place) => {
                proof {
                    self.lemma_entry(place as int);
                }
                true
            },
            Err(place) => {
                proof {
                    self.lemma_absent(id@, place as int);
                }
                false
            },
        }
    }

    /// The value that the table holds for `id`, if it holds one.
    pub fn get(&self, id: &str) -> (r: Option<&V>)
        requires
            self.wf(),
        ensures
            r is Some <==> self@.contains_key(id@),
            r matches Some(item) ==> *item == self@[id@],
    {
        match self.search(id) {
            Ok(place) => {
                proof {
                    self.lemma_entry(place as int);
                }
                Some(&self.values[place])
            },
            Err(place) => {
                proof {
                    self.lemma_absent(id@, place as int);
                }
                None
            },
        }
    }

    /// Enters `value` under `id` unless the table has an entry for `id`
    /// already; says whether it did. A table that has the entry stays as it
    /// is.
    pub fn insert(&mut self, id: String, value: V) -> (fresh: bool)
        requires
            old(self).wf(),
        ensures
            final(self).wf(),
            fresh == !old(self)@.contains_key(id@),
            fresh ==> final(self)@ == old(self)@.insert(id@, value),
            fresh ==> final(self).ids().len() == old(self).ids().len() + 1,
            !fresh ==> final(self).ids() == old(self).ids() && final(self).items() == old(
                self,
            ).items() && final(self)@ == old(self)@,
    {
        let ghost before = *self;
        match self.search(id.as_str()) {
            Ok(place) => {
                proof {
                    self.lemma_entry(place as int);
                }
                false
            },
            Err(place) => {
                proof {
                    self.lemma_absent(id@, place as int);
                }
                self.keys.insert(place, id);
                self.values.insert(place, value);
                proof {
                    let p = place as int;
                    let old_ids = before.ids();
                    let new_ids = self.ids();
                    assert(new_ids =~= old_ids.insert(p, id@));
                    assert(self.items() =~= before.items().insert(p, value));
                    assert forall|i: int, j: int| 0 <= i < j < new_ids.len() implies text_before(
                        #[trigger] new_ids[i],
                        #[trigger] new_ids[j],
                    ) by {
                        if j < p {
                            assert(text_before(old_ids[i], old_ids[j]));
                        } else if j == p {
                            assert(text_before(old_ids[i], id@));
                        } else if i < p {
                            lemma_text_before_transitive(old_ids[i], id@, old_ids[j - 1]);
                        } else if i == p {
                            assert(text_before(id@, old_ids[j - 1]));
                        } else {
                            assert(text_before(old_ids[i - 1], old_ids[j - 1]));
                        }
                    }
                    assert(self.wf());
                    self.lemma_keys();
                    before.lemma_keys();
                    let grown = before@.insert(id@, value);
                    assert forall|k: Seq<char>| self@.contains_key(k) implies grown.contains_key(
                        k,
                    ) && self@[k] == grown[k] by {
                        let i = new_ids.index_of(k);
                        assert(new_ids[i] == k);
                        self.lemma_entry(i);
                        if i < p {
                            before.lemma_entry(i);
                        } else if i > p {
                            before.lemma_entry(i - 1);
                        }
                    }
                    assert forall|k: Seq<char>| grown.contains_key(k) implies self@.contains_key(
                        k,
                    ) by {
                        if k == id@ {
                            assert(new_ids[p] == k);
                        } else {
                            let i = old_ids.index_of(k);
                            assert(old_ids[i] == k);
                            if i < p {
                                assert(new_ids[i] == k);
                            } else {
                                assert(new_ids[i + 1] == k);
                            }
                        }
                    }
                    assert(self@ =~= grown);
                }
                true
            },
        }
    }
}

} // verus!
