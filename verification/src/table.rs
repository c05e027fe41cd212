//! A keyed table of records: at most one record for each key.
//!
//! A record names its own key, so a table is a map from keys to records in
//! which every record sits under the key that it names.

use vstd::prelude::*;

verus! {

/// A record that is stored and found by a key of its own.
pub trait Keyed: Sized {
    /// What identifies a record.
    type Key;

    /// The key of this record.
    spec fn key(&self) -> Self::Key;

    /// Reports whether this record has the given key.
    fn has_key(&self, key: &Self::Key) -> (r: bool)
        ensures
            r == (self.key() == *key),
    ;
}

/// Some row has the key `key`.
pub open spec fn holds<R: Keyed>(rows: Seq<R>, key: R::Key) -> bool {
    exists|i: int| 0 <= i < rows.len() && (#[trigger] rows[i]).key() == key
}

/// The place of a row with the key `key`, if there is one.
pub open spec fn place_of<R: Keyed>(rows: Seq<R>, key: R::Key) -> int {
    choose|i: int| 0 <= i < rows.len() && (#[trigger] rows[i]).key() == key
}

/// No two rows have the same key.
pub open spec fn distinct<R: Keyed>(rows: Seq<R>) -> bool {
    forall|i: int, j: int|
        0 <= i < j < rows.len() ==> (#[trigger] rows[i]).key() != (#[trigger] rows[j]).key()
}

/// The rows as a map from each key to its row.
pub open spec fn as_map<R: Keyed>(rows: Seq<R>) -> Map<R::Key, R> {
    Map::new(|key: R::Key| holds(rows, key), |key: R::Key| rows[place_of(rows, key)])
}

/// In rows with distinct keys, the row at place `i` is the one that the map
/// has under its key.
pub proof fn lemma_row_in_map<R: Keyed>(rows: Seq<R>, i: int)
    requires
        distinct(rows),
        0 <= i < rows.len(),
    ensures
        as_map(rows).contains_key(rows[i].key()),
        as_map(rows)[rows[i].key()] == rows[i],
        place_of(rows, rows[i].key()) == i,
{
    // Some row has this key, and since no two rows share a key, the chosen
    // place is this one.
    let j = place_of(rows, rows[i].key());
    assert(rows[j].key() == rows[i].key());
}

/// Appending a row with a new key adds it to the map.
pub proof fn lemma_push<R: Keyed>(rows: Seq<R>, row: R)
    requires
        distinct(rows),
        !holds(rows, row.key()),
    ensures
        distinct(rows.push(row)),
        as_map(rows.push(row)) == as_map(rows).insert(row.key(), row),
{
    let after = rows.push(row);
    assert forall|i: int, j: int| 0 <= i < j < after.len() implies (#[trigger] after[i]).key() != (
    #[trigger] after[j]).key() by {
        if j < rows.len() {
            assert(rows[i].key() != rows[j].key());
        } else {
            assert(rows[i].key() == after[i].key());
        }
    }
    assert forall|key: R::Key| holds(after, key) <==> (holds(rows, key) || key == row.key()) by {
        if holds(after, key) {
            let i = place_of(after, key);
            if i < rows.len() {
                assert(rows[i].key() == key);
            }
        }
        if holds(rows, key) {
            let i = place_of(rows, key);
            assert(after[i].key() == key);
        }
        if key == row.key() {
            assert(after[rows.len() as int].key() == key);
        }
    }
    assert forall|key: R::Key| #[trigger] holds(after, key) implies as_map(after)[key] == as_map(
        rows,
    ).insert(row.key(), row)[key] by {
        if key == row.key() {
            lemma_row_in_map(after, rows.len() as int);
        } else {
            let i = place_of(rows, key);
            assert(rows[i].key() == key);
            assert(after[i] == rows[i]);
            lemma_row_in_map(after, i);
            lemma_row_in_map(rows, i);
        }
    }
    assert(as_map(after) =~= as_map(rows).insert(row.key(), row));
}

/// Replacing a row by one with the same key replaces it in the map.
pub proof fn lemma_update<R: Keyed>(rows: Seq<R>, i: int, row: R)
    requires
        distinct(rows),
        0 <= i < rows.len(),
        rows[i].key() == row.key(),
    ensures
        distinct(rows.update(i, row)),
        as_map(rows.update(i, row)) == as_map(rows).insert(row.key(), row),
{
    let after = rows.update(i, row);
    assert forall|a: int, b: int| 0 <= a < b < after.len() implies (#[trigger] after[a]).key() != (
    #[trigger] after[b]).key() by {
        assert(rows[a].key() != rows[b].key());
    }
    assert forall|key: R::Key| holds(after, key) <==> (holds(rows, key) || key == row.key()) by {
        if holds(after, key) {
            let j = place_of(after, key);
            assert(rows[j].key() == key);
        }
        if holds(rows, key) {
            let j = place_of(rows, key);
            assert(after[j].key() == key);
        }
        if key == row.key() {
            assert(after[i].key() == key);
        }
    }
    assert forall|key: R::Key| #[trigger] holds(after, key) implies as_map(after)[key] == as_map(
        rows,
    ).insert(row.key(), row)[key] by {
        if key == row.key() {
            lemma_row_in_map(after, i);
        } else {
            let j = place_of(rows, key);
            assert(rows[j].key() == key);
            assert(after[j] == rows[j]);
            lemma_row_in_map(after, j);
            lemma_row_in_map(rows, j);
        }
    }
    assert(as_map(after) =~= as_map(rows).insert(row.key(), row));
}

/// Taking a row out takes its key out of the map.
pub proof fn lemma_remove<R: Keyed>(rows: Seq<R>, i: int)
    requires
        distinct(rows),
        0 <= i < rows.len(),
    ensures
        distinct(rows.remove(i)),
        as_map(rows.remove(i)) == as_map(rows).remove(rows[i].key()),
{
    let after = rows.remove(i);
    let gone = rows[i].key();
    assert forall|a: int, b: int| 0 <= a < b < after.len() implies (#[trigger] after[a]).key() != (
    #[trigger] after[b]).key() by {
        let a0 = if a < i { a } else { a + 1 };
        let b0 = if b < i { b } else { b + 1 };
        assert(after[a] == rows[a0] && after[b] == rows[b0]);
        assert(rows[a0].key() != rows[b0].key());
    }
    assert forall|key: R::Key| holds(after, key) <==> (holds(rows, key) && key != gone) by {
        if holds(after, key) {
            let j = place_of(after, key);
            let j0 = if j < i { j } else { j + 1 };
            assert(after[j] == rows[j0]);
            assert(rows[j0].key() == key);
            if j0 < i {
                assert(rows[j0].key() != rows[i].key());
            } else {
                assert(rows[i].key() != rows[j0].key());
            }
        }
        if holds(rows, key) && key != gone {
            let j = place_of(rows, key);
            let j1 = if j < i { j } else { j - 1 };
            assert(after[j1] == rows[j]);
            assert(after[j1].key() == key);
        }
    }
    assert forall|key: R::Key| #[trigger] holds(after, key) implies as_map(after)[key] == as_map(
        rows,
    ).remove(gone)[key] by {
        let j = place_of(rows, key);
        assert(rows[j].key() == key);
        let j1 = if j < i { j } else { j - 1 };
        assert(after[j1] == rows[j]);
        lemma_row_in_map(after, j1);
        lemma_row_in_map(rows, j);
    }
    assert(as_map(after) =~= as_map(rows).remove(gone));
}

/// Records of one kind, at most one for each key.
pub struct Table<R> {
    rows: Vec<R>,
}

impl<R: Keyed> View for Table<R> {
    type V = Map<R::Key, R>;

    closed spec fn view(&self) -> Map<R::Key, R> {
        as_map(self.rows@)
    }
}

impl<R: Keyed> Table<R> {
    /// No key occurs twice among the rows.
    pub closed spec fn well_formed(&self) -> bool {
        distinct(self.rows@)
    }

    /// The records in the order in which they were added.
    pub closed spec fn rows(&self) -> Seq<R> {
        self.rows@
    }

    /// The number of rows.
    pub open spec fn count(&self) -> nat {
        self.rows().len()
    }

    /// The map is made of the rows, and no two rows have the same key.
    pub proof fn lemma_rows(&self)
        requires
            self.well_formed(),
        ensures
            distinct(self.rows()),
            self@ == as_map(self.rows()),
    {
    }

    /// An empty table.
    pub fn new() -> (r: Self)
        ensures
            r.well_formed(),
            r@ == Map::<R::Key, R>::empty(),
            r.count() == 0,
    {
        Table { rows: Vec::new() }
    }

    /// The number of records.
    pub fn len(&self) -> (r: usize)
        ensures
            r == self.count(),
    {
        self.rows.len()
    }

    /// The record at place `i`.
    pub fn row(&self, i: usize) -> (r: &R)
        requires
            i < self.count(),
        ensures
            *r == self.rows()[i as int],
    {
        &self.rows[i]
    }

    /// The place of the row with the given key, if there is one.
    fn find(&self, key: &R::Key) -> (r: Option<usize>)
        requires
            self.well_formed(),
        ensures
            match r {
                Some(i) => i < self.rows@.len() && self.rows@[i as int].key() == *key
                    && self@.contains_key(*key) && self@[*key] == self.rows@[i as int],
                None => !self@.contains_key(*key),
            },
    {
        let mut i: usize = 0;
        while i < self.rows.len()
            invariant
                distinct(self.rows@),
                0 <= i <= self.rows@.len(),
                forall|j: int| 0 <= j < i ==> (#[trigger] self.rows@[j]).key() != *key,
            decreases self.rows@.len() - i,
        {
            if self.rows[i].has_key(key) {
                proof {
                    lemma_row_in_map(self.rows@, i as int);
                }
                return Some(i);
            }
            i += 1;
        }
        None
    }

    /// Reports whether there is a record with the given key.
    pub fn contains(&self, key: &R::Key) -> (r: bool)
        requires
            self.well_formed(),
        ensures
            r == self@.contains_key(*key),
    {
        self.find(key).is_some()
    }

    /// The record with the given key, if there is one.
    pub fn get(&self, key: &R::Key) -> (r: Option<&R>)
        requires
            self.well_formed(),
        ensures
            match r {
                Some(row) => self@.contains_key(*key) && self@[*key] == *row && row.key() == *key,
                None => !self@.contains_key(*key),
            },
    {
        match self.find(key) {
            Some(i) => Some(&self.rows[i]),
            None => None,
        }
    }

    /// Adds a record whose key is not in the table yet.
    pub fn insert(&mut self, row: R)
        requires
            old(self).well_formed(),
            !old(self)@.contains_key(row.key()),
        ensures
            final(self).well_formed(),
            final(self)@ == old(self)@.insert(row.key(), row),
            final(self).count() == old(self).count() + 1,
    {
        proof {
            lemma_push(self.rows@, row);
        }
        self.rows.push(row);
    }

    /// Puts a record in the place of the one that has its key.
    pub fn replace(&mut self, key: &R::Key, row: R)
        requires
            old(self).well_formed(),
            old(self)@.contains_key(*key),
            row.key() == *key,
        ensures
            final(self).well_formed(),
            final(self)@ == old(self)@.insert(*key, row),
            final(self).count() == old(self).count(),
    {
        match self.find(key) {
            Some(i) => {
                proof {
                    lemma_update(self.rows@, i as int, row);
                }
                self.rows.set(i, row);
            },
            None => {},
        }
    }

    /// Takes out the record with the given key, if there is one.
    pub fn remove(&mut self, key: &R::Key) -> (r: Option<R>)
        requires
            old(self).well_formed(),
        ensures
            final(self).well_formed(),
            final(self)@ == old(self)@.remove(*key),
            match r {
                Some(row) => old(self)@.contains_key(*key) && old(self)@[*key] == row
                    && final(self).count() + 1 == old(self).count(),
                None => !old(self)@.contains_key(*key) && final(self).count() == old(self).count(),
            },
    {
        match self.find(key) {
            Some(i) => {
                proof {
                    lemma_remove(self.rows@, i as int);
                }
                Some(self.rows.remove(i))
            },
            None => None,
        }
    }
}

} // verus!
