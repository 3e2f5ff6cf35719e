//! A small table keyed by symbol, kept in insertion order.
//!
//! It holds at most one row per symbol that `put` has written; a lookup
//! returns the first row whose key matches.

use vstd::prelude::*;

verus! {

/// One row of a [`SymbolTable`].
pub struct Row<V> {
    pub key: String,
    pub value: V,
}

/// Values by symbol.
pub struct SymbolTable<V> {
    pub rows: Vec<Row<V>>,
}

/// The value of the first row of `rows` whose key reads `key`.
pub open spec fn lookup<V>(rows: Seq<Row<V>>, key: Seq<char>) -> Option<V>
    decreases rows.len(),
{
    if rows.len() == 0 {
        None
    } else if rows[0].key@ == key {
        Some(rows[0].value)
    } else {
        lookup(rows.drop_first(), key)
    }
}

/// No row before `upto` has the key.
pub open spec fn absent_before<V>(rows: Seq<Row<V>>, key: Seq<char>, upto: int) -> bool {
    forall|j: int| 0 <= j < upto && j < rows.len() ==> (#[trigger] rows[j]).key@ != key
}

/// A lookup skips every leading row whose key differs.
pub proof fn lemma_lookup_skip<V>(rows: Seq<Row<V>>, key: Seq<char>, upto: int)
    requires
        0 <= upto <= rows.len(),
        absent_before(rows, key, upto),
    ensures
        lookup(rows, key) == lookup(rows.skip(upto), key),
    decreases upto,
{
    if upto == 0 {
        assert(rows.skip(0) =~= rows);
    } else {
        assert(rows[0].key@ != key);
        let rest = rows.drop_first();
        assert forall|j: int| 0 <= j < upto - 1 && j < rest.len() implies (#[trigger] rest[j]).key@
            != key by {
            assert(rest[j] == rows[j + 1]);
        }
        lemma_lookup_skip(rest, key, upto - 1);
        assert(rest.skip(upto - 1) =~= rows.skip(upto));
    }
}

/// Replacing the first row that has `key` changes the lookup of `key` and
/// of nothing else.
pub proof fn lemma_lookup_update<V>(rows: Seq<Row<V>>, at: int, row: Row<V>, other: Seq<char>)
    requires
        0 <= at < rows.len(),
        rows[at].key@ == row.key@,
        absent_before(rows, row.key@, at),
    ensures
        lookup(rows.update(at, row), row.key@) == Some(row.value),
        other != row.key@ ==> lookup(rows.update(at, row), other) == lookup(rows, other),
    decreases at,
{
    let changed = rows.update(at, row);
    if at == 0 {
        assert(changed.drop_first() =~= rows.drop_first());
    } else {
        assert(rows[0].key@ != row.key@);
        let rest = rows.drop_first();
        assert forall|j: int| 0 <= j < at - 1 && j < rest.len() implies (#[trigger] rest[j]).key@
            != row.key@ by {
            assert(rest[j] == rows[j + 1]);
        }
        lemma_lookup_update(rest, at - 1, row, other);
        assert(changed.drop_first() =~= rest.update(at - 1, row));
        assert(changed[0] == rows[0]);
    }
}

/// Appending a row whose key no row has changes the lookup of that key and
/// of nothing else.
pub proof fn lemma_lookup_push<V>(rows: Seq<Row<V>>, row: Row<V>, other: Seq<char>)
    requires
        absent_before(rows, row.key@, rows.len() as int),
    ensures
        lookup(rows.push(row), row.key@) == Some(row.value),
        other != row.key@ ==> lookup(rows.push(row), other) == lookup(rows, other),
    decreases rows.len(),
{
    let grown = rows.push(row);
    if rows.len() == 0 {
        assert(grown.drop_first() =~= rows);
    } else {
        assert(rows[0].key@ != row.key@);
        let rest = rows.drop_first();
        assert forall|j: int| 0 <= j < rest.len() implies (#[trigger] rest[j]).key@ != row.key@ by {
            assert(rest[j] == rows[j + 1]);
        }
        lemma_lookup_push(rest, row, other);
        assert(grown.drop_first() =~= rest.push(row));
        assert(grown[0] == rows[0]);
    }
}

impl<V: Copy> SymbolTable<V> {
    /// The value stored under `key`, if any.
    pub open spec fn value_of(&self, key: Seq<char>) -> Option<V> {
        lookup(self.rows@, key)
    }

    /// An empty table.
    pub fn new() -> (r: SymbolTable<V>)
        ensures
            r.rows@.len() == 0,
            forall|key: Seq<char>| r.value_of(key) == None::<V>,
    {
        SymbolTable { rows: Vec::new() }
    }

    /// Index of the first row stored under `key`.
    pub fn position(&self, key: &String) -> (r: Option<usize>)
        ensures
            match r {
                Some(i) => i < self.rows@.len() && self.rows@[i as int].key@ == key@ && absent_before(
                    self.rows@,
                    key@,
                    i as int,
                ) && self.value_of(key@) == Some(self.rows@[i as int].value),
                None => absent_before(self.rows@, key@, self.rows@.len() as int) && self.value_of(
                    key@,
                ) == None::<V>,
            },
    {
        let mut i: usize = 0;
        while i < self.rows.len()
            invariant
                i <= self.rows.len(),
                absent_before(self.rows@, key@, i as int),
            decreases self.rows.len() - i,
        {
            if self.rows[i].key == *key {
                proof {
                    lemma_lookup_skip(self.rows@, key@, i as int);
                }
                return Some(i);
            }
            i = i + 1;
        }
        proof {
            lemma_lookup_skip(self.rows@, key@, i as int);
        }
        None
    }

    /// Returns the value stored under `key`.
    pub fn get(&self, key: &String) -> (r: Option<V>)
        ensures
            r == self.value_of(key@),
    {
        match self.position(key) {
            Some(i) => Some(self.rows[i].value),
            None => None,
        }
    }

    /// Stores `value` under `key`, in place of what was stored there.
    pub fn put(&mut self, key: String, value: V)
        ensures
            final(self).value_of(key@) == Some(value),
            forall|other: Seq<char>| other != key@ ==> final(self).value_of(other) == old(self).value_of(other),
            final(self).rows@.len() == old(self).rows@.len() + (if old(self).value_of(key@) is Some {
                0int
            } else {
                1int
            }),
    {
        let found = self.position(&key);
        let row = Row { key, value };
        match found {
            Some(i) => {
                proof {
                    assert forall|other: Seq<char>| other != row.key@ implies lookup(
                        self.rows@.update(i as int, row),
                        other,
                    ) == lookup(self.rows@, other) by {
                        lemma_lookup_update(self.rows@, i as int, row, other);
                    }
                    lemma_lookup_update(self.rows@, i as int, row, row.key@);
                }
                self.rows.set(i, row);
            },
            None => {
                proof {
                    assert forall|other: Seq<char>| other != row.key@ implies lookup(
                        self.rows@.push(row),
                        other,
                    ) == lookup(self.rows@, other) by {
                        lemma_lookup_push(self.rows@, row, other);
                    }
                    lemma_lookup_push(self.rows@, row, row.key@);
                }
                self.rows.push(row);
            },
        }
    }
}

} // verus!
