use crate::tags::copy_string;
use vstd::prelude::*;

verus! {

/// The view of a composite key: its parts, in order.
pub open spec fn key_view(k: Seq<String>) -> Seq<Seq<char>> {
    k.map_values(|s: String| s@)
}

/// The rows of a table as a map from key to row; a later entry for a key
/// replaces an earlier one.
pub open spec fn entries_map<R>(keys: Seq<Vec<String>>, rows: Seq<R>) -> Map<Seq<Seq<char>>, R>
    decreases keys.len(),
{
    if keys.len() == 0 || rows.len() == 0 {
        Map::empty()
    } else {
        entries_map(keys.drop_last(), rows.drop_last()).insert(key_view(keys.last()@), rows.last())
    }
}

/// A table of rows keyed by a composite key, each key at most once:
/// what the persistent store holds under a uniqueness constraint.
pub struct KeyedTable<R> {
    keys: Vec<Vec<String>>,
    rows: Vec<R>,
}

/// Compares two composite keys part by part.
pub fn same_key(a: &Vec<String>, b: &Vec<String>) -> (r: bool)
    ensures
        r == (key_view(a@) == key_view(b@)),
{
    if a.len() != b.len() {
        proof {
            assert(key_view(a@).len() != key_view(b@).len());
        }
        return false;
    }
    let mut i: usize = 0;
    while i < a.len()
        invariant
            a@.len() == b@.len(),
            i <= a@.len(),
            forall|j: int| 0 <= j < i ==> (#[trigger] a@[j])@ == b@[j]@,
        decreases a.len() - i,
    {
        if a[i] != b[i] {
            proof {
                assert(key_view(a@)[i as int] != key_view(b@)[i as int]);
            }
            return false;
        }
        i = i + 1;
    }
    proof {
        assert(key_view(a@) =~= key_view(b@));
    }
    true
}

proof fn lemma_entries_domain<R>(keys: Seq<Vec<String>>, rows: Seq<R>, i: int)
    requires
        keys.len() == rows.len(),
        0 <= i < keys.len(),
        forall|a: int, b: int|
            0 <= a < b < keys.len() ==> key_view((#[trigger] keys[a])@) != key_view((#[trigger] keys[b])@),
    ensures
        entries_map(keys, rows).contains_key(key_view(keys[i]@)),
        entries_map(keys, rows)[key_view(keys[i]@)] == rows[i],
    decreases keys.len(),
{
    if i < keys.len() - 1 {
        lemma_entries_domain(keys.drop_last(), rows.drop_last(), i);
        assert(keys.drop_last()[i] == keys[i]);
        assert(key_view(keys[i]@) != key_view(keys.last()@));
    }
}

proof fn lemma_entries_absent<R>(keys: Seq<Vec<String>>, rows: Seq<R>, k: Seq<Seq<char>>)
    requires
        keys.len() == rows.len(),
        forall|j: int| 0 <= j < keys.len() ==> key_view((#[trigger] keys[j])@) != k,
    ensures
        !entries_map(keys, rows).contains_key(k),
    decreases keys.len(),
{
    if keys.len() > 0 {
        assert forall|j: int| 0 <= j < keys.len() - 1 implies key_view((#[trigger] keys.drop_last()[j])@) != k by {
            assert(keys.drop_last()[j] == keys[j]);
        }
        lemma_entries_absent(keys.drop_last(), rows.drop_last(), k);
    }
}

proof fn lemma_entries_update<R>(keys: Seq<Vec<String>>, rows: Seq<R>, i: int, r: R)
    requires
        keys.len() == rows.len(),
        0 <= i < keys.len(),
        forall|a: int, b: int|
            0 <= a < b < keys.len() ==> key_view((#[trigger] keys[a])@) != key_view((#[trigger] keys[b])@),
    ensures
        entries_map(keys, rows.update(i, r)) == entries_map(keys, rows).insert(key_view(keys[i]@), r),
    decreases keys.len(),
{
    let n = keys.len() - 1;
    if i == n {
        assert(rows.update(i, r).drop_last() =~= rows.drop_last());
        assert(entries_map(keys, rows.update(i, r)) =~= entries_map(keys, rows).insert(
            key_view(keys[i]@),
            r,
        ));
    } else {
        assert(rows.update(i, r).drop_last() =~= rows.drop_last().update(i, r));
        lemma_entries_update(keys.drop_last(), rows.drop_last(), i, r);
        assert(keys.drop_last()[i] == keys[i]);
        assert(key_view(keys[i]@) != key_view(keys[n]@));
        assert(entries_map(keys, rows.update(i, r)) =~= entries_map(keys, rows).insert(
            key_view(keys[i]@),
            r,
        ));
    }
}

impl<R> KeyedTable<R> {
    pub closed spec fn wf(&self) -> bool {
        &&& self.keys@.len() == self.rows@.len()
        &&& forall|a: int, b: int|
            0 <= a < b < self.keys@.len() ==> key_view((#[trigger] self.keys@[a])@) != key_view(
                (#[trigger] self.keys@[b])@,
            )
    }

    /// The rows by key.
    pub closed spec fn view(&self) -> Map<Seq<Seq<char>>, R> {
        entries_map(self.keys@, self.rows@)
    }

    pub fn new() -> (r: KeyedTable<R>)
        ensures
            r.wf(),
            r.view() == Map::<Seq<Seq<char>>, R>::empty(),
    {
        KeyedTable { keys: Vec::new(), rows: Vec::new() }
    }

    pub fn len(&self) -> (r: usize)
        requires
            self.wf(),
        ensures
            r as int == self.view().dom().len(),
    {
        proof {
            self.lemma_dom_len();
        }
        self.keys.len()
    }

    proof fn lemma_dom_len(&self)
        requires
            self.wf(),
        ensures
            self.view().dom().finite(),
            self.view().dom().len() == self.keys@.len(),
        decreases self.keys@.len(),
    {
        lemma_dom_len_of(self.keys@, self.rows@);
    }

    fn find(&self, key: &Vec<String>) -> (r: Option<usize>)
        requires
            self.wf(),
        ensures
            r is Some ==> r->0 < self.keys@.len() && key_view(self.keys@[r->0 as int]@) == key_view(key@),
            r is None ==> forall|j: int| 0 <= j < self.keys@.len() ==> key_view((#[trigger] self.keys@[j])@) != key_view(key@),
    {
        let mut i: usize = 0;
        while i < self.keys.len()
            invariant
                i <= self.keys@.len(),
                forall|j: int| 0 <= j < i ==> key_view((#[trigger] self.keys@[j])@) != key_view(key@),
            decreases self.keys.len() - i,
        {
            if same_key(&self.keys[i], key) {
                return Some(i);
            }
            i = i + 1;
        }
        None
    }

    /// Inserts the row, or replaces the row already stored under its key.
    pub fn upsert(&mut self, key: Vec<String>, row: R)
        requires
            old(self).wf(),
        ensures
            final(self).wf(),
            final(self).view() == old(self).view().insert(key_view(key@), row),
    {
        match self.find(&key) {
            Some(i) => {
                proof {
                    lemma_entries_update(self.keys@, self.rows@, i as int, row);
                }
                self.rows.set(i, row);
            },
            None => {
                let ghost k = key@;
                self.keys.push(key);
                self.rows.push(row);
                proof {
                    assert(self.keys@.drop_last() == old(self).keys@);
                    assert(self.rows@.drop_last() == old(self).rows@);
                    assert(self.keys@.last()@ == k);
                }
            },
        }
    }

    /// The row stored under the key.
    pub fn get(&self, key: &Vec<String>) -> (r: Option<&R>)
        requires
            self.wf(),
        ensures
            r is Some <==> self.view().contains_key(key_view(key@)),
            r is Some ==> *r->0 == self.view()[key_view(key@)],
    {
        match self.find(key) {
            Some(i) => {
                proof {
                    lemma_entries_domain(self.keys@, self.rows@, i as int);
                }
                Some(&self.rows[i])
            },
            None => {
                proof {
                    lemma_entries_absent(self.keys@, self.rows@, key_view(key@));
                }
                None
            },
        }
    }
}

proof fn lemma_dom_len_of<R>(keys: Seq<Vec<String>>, rows: Seq<R>)
    requires
        keys.len() == rows.len(),
        forall|a: int, b: int|
            0 <= a < b < keys.len() ==> key_view((#[trigger] keys[a])@) != key_view((#[trigger] keys[b])@),
    ensures
        entries_map(keys, rows).dom().finite(),
        entries_map(keys, rows).dom().len() == keys.len(),
    decreases keys.len(),
{
    if keys.len() > 0 {
        let kd = keys.drop_last();
        let rd = rows.drop_last();
        assert forall|a: int, b: int|
            0 <= a < b < kd.len() implies key_view((#[trigger] kd[a])@) != key_view((#[trigger] kd[b])@) by {
            assert(kd[a] == keys[a] && kd[b] == keys[b]);
        }
        lemma_dom_len_of(kd, rd);
        assert forall|j: int| 0 <= j < kd.len() implies key_view((#[trigger] kd[j])@) != key_view(
            keys.last()@,
        ) by {
            assert(kd[j] == keys[j]);
        }
        lemma_entries_absent(kd, rd, key_view(keys.last()@));
    }
}

/// Upserts a run of keyed rows, in order, into a map.
pub open spec fn upsert_all<R>(m: Map<Seq<Seq<char>>, R>, kvs: Seq<(Seq<Seq<char>>, R)>) -> Map<
    Seq<Seq<char>>,
    R,
>
    decreases kvs.len(),
{
    if kvs.len() == 0 {
        m
    } else {
        upsert_all(m, kvs.drop_last()).insert(kvs.last().0, kvs.last().1)
    }
}

/// Upserting a run of rows overlays the map with what the run alone yields.
pub proof fn lemma_upsert_all_overlay<R>(m: Map<Seq<Seq<char>>, R>, kvs: Seq<(Seq<Seq<char>>, R)>)
    ensures
        upsert_all(m, kvs) == m.union_prefer_right(upsert_all(Map::empty(), kvs)),
    decreases kvs.len(),
{
    if kvs.len() == 0 {
        assert(m.union_prefer_right(Map::<Seq<Seq<char>>, R>::empty()) =~= m);
    } else {
        lemma_upsert_all_overlay(m, kvs.drop_last());
        lemma_upsert_all_overlay(Map::<Seq<Seq<char>>, R>::empty(), kvs.drop_last());
        assert(upsert_all(m, kvs) =~= m.union_prefer_right(upsert_all(Map::empty(), kvs)));
    }
}

/// Upserting the same run of rows a second time changes nothing.
pub proof fn lemma_upsert_all_idempotent<R>(m: Map<Seq<Seq<char>>, R>, kvs: Seq<(Seq<Seq<char>>, R)>)
    ensures
        upsert_all(upsert_all(m, kvs), kvs) == upsert_all(m, kvs),
{
    let u = upsert_all(Map::<Seq<Seq<char>>, R>::empty(), kvs);
    lemma_upsert_all_overlay(m, kvs);
    lemma_upsert_all_overlay(upsert_all(m, kvs), kvs);
    assert(m.union_prefer_right(u).union_prefer_right(u) =~= m.union_prefer_right(u));
}

} // verus!
