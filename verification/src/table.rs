//! A table of records in which each key occurs at most once.

use vstd::prelude::*;

verus! {

/// A record that is found by a key derived from its own fields.
pub trait Keyed {
    type Key;

    /// The key under which this record is stored.
    spec fn key(&self) -> Self::Key;

    /// Computes the key under which this record is stored.
    fn to_key(&self) -> (k: Self::Key)
        ensures
            k == self.key(),
    ;

    /// Whether this record is the one stored under `key`.
    fn has_key(&self, key: &Self::Key) -> (b: bool)
        ensures
            b == (self.key() == *key),
    ;
}

/// No two of `rows` have the same key.
pub open spec fn distinct_keys<R: Keyed>(rows: Seq<R>) -> bool {
    forall|i: int, j: int|
        0 <= i < rows.len() && 0 <= j < rows.len() && i != j ==> #[trigger] rows[i].key()
            != #[trigger] rows[j].key()
}

/// Some row of `rows` has the key `k`.
pub open spec fn holds_key<R: Keyed>(rows: Seq<R>, k: R::Key) -> bool {
    exists|i: int| 0 <= i < rows.len() && #[trigger] rows[i].key() == k
}

/// The place in `rows` of a row with the key `k`.
pub open spec fn place_of<R: Keyed>(rows: Seq<R>, k: R::Key) -> int {
    choose|i: int| 0 <= i < rows.len() && #[trigger] rows[i].key() == k
}

/// The map from each key in `rows` to the row that has it.
pub open spec fn by_key<R: Keyed>(rows: Seq<R>) -> Map<R::Key, R> {
    Map::new(|k: R::Key| holds_key(rows, k), |k: R::Key| rows[place_of(rows, k)])
}

proof fn lemma_row_is_mapped<R: Keyed>(rows: Seq<R>, i: int)
    requires
        distinct_keys(rows),
        0 <= i < rows.len(),
    ensures
        by_key(rows).contains_key(rows[i].key()),
        by_key(rows)[rows[i].key()] == rows[i],
{
    let k = rows[i].key();
    assert(holds_key(rows, k));
    let p = place_of(rows, k);
    assert(0 <= p < rows.len() && rows[p].key() == k);
    assert(p == i);
}

proof fn lemma_push<R: Keyed>(rows: Seq<R>, row: R)
    requires
        distinct_keys(rows),
        !holds_key(rows, row.key()),
    ensures
        distinct_keys(rows.push(row)),
        by_key(rows.push(row)) == by_key(rows).insert(row.key(), row),
{
    let grown = rows.push(row);
    assert forall|i: int, j: int|
        0 <= i < grown.len() && 0 <= j < grown.len() && i != j implies #[trigger] grown[i].key()
        != #[trigger] grown[j].key() by {
        if i < rows.len() && j < rows.len() {
            assert(rows[i].key() != rows[j].key());
        } else if i < rows.len() {
            assert(rows[i].key() != row.key());
        } else {
            assert(rows[j].key() != row.key());
        }
    }
    assert forall|k: R::Key| by_key(grown).contains_key(k) <==> by_key(rows).insert(
        row.key(),
        row,
    ).contains_key(k) by {
        if holds_key(grown, k) {
            let p = place_of(grown, k);
            if p < rows.len() {
                assert(rows[p].key() == k);
            }
        }
        if holds_key(rows, k) {
            let p = place_of(rows, k);
            assert(grown[p].key() == k);
        }
        if k == row.key() {
            assert(grown[rows.len() as int].key() == k);
        }
    }
    assert forall|k: R::Key| by_key(grown).contains_key(k) implies by_key(grown)[k] == by_key(
        rows,
    ).insert(row.key(), row)[k] by {
        let p = place_of(grown, k);
        lemma_row_is_mapped(grown, p);
        if p < rows.len() {
            assert(rows[p].key() == k);
            lemma_row_is_mapped(rows, p);
        }
    }
    assert(by_key(grown) =~= by_key(rows).insert(row.key(), row));
}

proof fn lemma_update<R: Keyed>(rows: Seq<R>, i: int, row: R)
    requires
        distinct_keys(rows),
        0 <= i < rows.len(),
        rows[i].key() == row.key(),
    ensures
        distinct_keys(rows.update(i, row)),
        by_key(rows.update(i, row)) == by_key(rows).insert(row.key(), row),
{
    let changed = rows.update(i, row);
    assert forall|a: int, b: int|
        0 <= a < changed.len() && 0 <= b < changed.len() && a != b implies #[trigger] changed[a].key()
        != #[trigger] changed[b].key() by {
        assert(changed[a].key() == rows[a].key());
        assert(changed[b].key() == rows[b].key());
    }
    assert forall|k: R::Key| by_key(changed).contains_key(k) <==> by_key(rows).insert(
        row.key(),
        row,
    ).contains_key(k) by {
        if holds_key(changed, k) {
            let p = place_of(changed, k);
            assert(rows[p].key() == k);
        }
        if holds_key(rows, k) {
            let p = place_of(rows, k);
            assert(changed[p].key() == k);
        }
        if k == row.key() {
            assert(changed[i].key() == k);
        }
    }
    assert forall|k: R::Key| by_key(changed).contains_key(k) implies by_key(changed)[k] == by_key(
        rows,
    ).insert(row.key(), row)[k] by {
        let p = place_of(changed, k);
        lemma_row_is_mapped(changed, p);
        assert(rows[p].key() == k);
        lemma_row_is_mapped(rows, p);
    }
    assert(by_key(changed) =~= by_key(rows).insert(row.key(), row));
}

proof fn lemma_remove<R: Keyed>(rows: Seq<R>, i: int)
    requires
        distinct_keys(rows),
        0 <= i < rows.len(),
    ensures
        distinct_keys(rows.remove(i)),
        by_key(rows.remove(i)) == by_key(rows).remove(rows[i].key()),
{
    let less = rows.remove(i);
    assert forall|a: int, b: int|
        0 <= a < less.len() && 0 <= b < less.len() && a != b implies #[trigger] less[a].key()
        != #[trigger] less[b].key() by {
        let a0 = if a < i { a } else { a + 1 };
        let b0 = if b < i { b } else { b + 1 };
        assert(less[a] == rows[a0]);
        assert(less[b] == rows[b0]);
    }
    assert forall|k: R::Key| by_key(less).contains_key(k) <==> by_key(rows).remove(
        rows[i].key(),
    ).contains_key(k) by {
        if holds_key(less, k) {
            let p = place_of(less, k);
            let p0 = if p < i { p } else { p + 1 };
            assert(less[p] == rows[p0]);
            assert(rows[p0].key() == k);
        }
        if holds_key(rows, k) && k != rows[i].key() {
            let p = place_of(rows, k);
            let q = if p < i { p } else { p - 1 };
            assert(less[q] == rows[p]);
            assert(less[q].key() == k);
        }
    }
    assert forall|k: R::Key| by_key(less).contains_key(k) implies by_key(less)[k] == by_key(
        rows,
    ).remove(rows[i].key())[k] by {
        let p = place_of(less, k);
        let p0 = if p < i { p } else { p + 1 };
        assert(less[p] == rows[p0]);
        lemma_row_is_mapped(less, p);
        lemma_row_is_mapped(rows, p0);
    }
    assert(by_key(less) =~= by_key(rows).remove(rows[i].key()));
}

/// A table of records of one kind, each stored under its own key. Its view
/// is the map from each key to the record stored under it.
pub struct Table<R: Keyed> {
    rows: Vec<R>,
}

impl<R: Keyed> View for Table<R> {
    type V = Map<R::Key, R>;

    closed spec fn view(&self) -> Map<R::Key, R> {
        by_key(self.rows@)
    }
}

impl<R: Keyed> Table<R> {
    /// No key occurs twice. Every table that this module hands out is well
    /// formed, and every operation keeps it so.
    pub closed spec fn wf(&self) -> bool {
        distinct_keys(self.rows@)
    }

    /// The empty table.
    pub fn new() -> (table: Self)
        ensures
            table.wf(),
            table@ == Map::<R::Key, R>::empty(),
    {
        let table = Table { rows: Vec::new() };
        assert(table@ =~= Map::<R::Key, R>::empty());
        table
    }

    fn find(&self, key: &R::Key) -> (place: Option<usize>)
        ensures
            match place {
                Some(i) => i < self.rows@.len() && self.rows@[i as int].key() == *key,
                None => !holds_key(self.rows@, *key),
            },
    {
        let mut i: usize = 0;
        while i < self.rows.len()
            invariant
                i <= self.rows@.len(),
                forall|j: int| 0 <= j < i ==> (#[trigger] self.rows@[j]).key() != *key,
            decreases self.rows@.len() - i,
        {
            if self.rows[i].has_key(key) {
                return Some(i);
            }
            i += 1;
        }
        None
    }

    /// Whether a record is stored under `key`.
    pub fn contains(&self, key: &R::Key) -> (b: bool)
        ensures
            b == self@.contains_key(*key),
    {
        self.find(key).is_some()
    }

    /// The record stored under `key`, if there is one. Its own key is `key`.
    pub fn get(&self, key: &R::Key) -> (row: Option<&R>)
        requires
            self.wf(),
        ensures
            match row {
                Some(found) => self@.contains_key(*key) && *found == self@[*key] && found.key()
                    == *key,
                None => !self@.contains_key(*key),
            },
    {
        match self.find(key) {
            Some(i) => {
                proof {
                    lemma_row_is_mapped(self.rows@, i as int);
                }
                Some(&self.rows[i])
            },
            None => None,
        }
    }

    /// Stores `row` under its key unless a record is stored there already,
    /// and says whether it did. A refused insertion changes nothing.
    pub fn insert_new(&mut self, row: R) -> (inserted: bool)
        requires
            old(self).wf(),
        ensures
            final(self).wf(),
            inserted == !old(self)@.contains_key(row.key()),
            inserted ==> final(self)@ == old(self)@.insert(row.key(), row),
            !inserted ==> final(self)@ == old(self)@,
    {
        if self.find(&row.to_key()).is_some() {
            return false;
        }
        proof {
            lemma_push(self.rows@, row);
        }
        self.rows.push(row);
        true
    }

    /// Stores `row` under its key, in place of the record stored there, if
    /// there is one.
    pub fn put(&mut self, row: R)
        requires
            old(self).wf(),
        ensures
            final(self).wf(),
            final(self)@ == old(self)@.insert(row.key(), row),
    {
        match self.find(&row.to_key()) {
            Some(i) => {
                proof {
                    lemma_update(self.rows@, i as int, row);
                }
                self.rows.set(i, row);
            },
            None => {
                proof {
                    lemma_push(self.rows@, row);
                }
                self.rows.push(row);
            },
        }
    }

    /// Takes the record stored under `key` out of the table, if there is one.
    pub fn remove(&mut self, key: &R::Key) -> (row: Option<R>)
        requires
            old(self).wf(),
        ensures
            final(self).wf(),
            match row {
                Some(taken) => old(self)@.contains_key(*key) && taken == old(self)@[*key],
                None => !old(self)@.contains_key(*key),
            },
            final(self)@ == old(self)@.remove(*key),
    {
        match self.find(key) {
            Some(i) => {
                proof {
                    lemma_row_is_mapped(self.rows@, i as int);
                    lemma_remove(self.rows@, i as int);
                }
                Some(self.rows.remove(i))
            },
            None => {
                assert(self@ =~= self@.remove(*key));
                None
            },
        }
    }
}

} // verus!
