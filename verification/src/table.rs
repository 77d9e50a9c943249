//! Keyed tables.
//!
//! A table is a vector of key and value pairs. The entry that counts for a
//! key is the last one that holds it, so a table stands for a map from keys
//! to values. Saving under a key replaces that entry, or appends one where
//! the key is new.

use vstd::prelude::*;

verus! {

/// The entries of a table as seen through a view of its keys and one of its
/// values.
pub open spec fn entries<K, V, A, B>(
    table: Seq<(K, V)>,
    key_of: spec_fn(K) -> A,
    value_of: spec_fn(V) -> B,
) -> Seq<(A, B)> {
    Seq::new(table.len(), |i: int| (key_of(table[i].0), value_of(table[i].1)))
}

/// The map that a sequence of entries stands for: later entries win.
pub open spec fn table_map<A, B>(entries: Seq<(A, B)>) -> Map<A, B>
    decreases entries.len(),
{
    if entries.len() == 0 {
        Map::empty()
    } else {
        table_map(entries.drop_last()).insert(entries.last().0, entries.last().1)
    }
}

/// Entry `i` is the last one that holds `key`.
pub open spec fn is_last_match<A, B>(entries: Seq<(A, B)>, key: A, i: int) -> bool {
    &&& 0 <= i < entries.len()
    &&& entries[i].0 == key
    &&& forall|j: int| i < j < entries.len() ==> (#[trigger] entries[j]).0 != key
}

/// No entry holds `key`.
pub open spec fn is_absent<A, B>(entries: Seq<(A, B)>, key: A) -> bool {
    forall|j: int| 0 <= j < entries.len() ==> (#[trigger] entries[j]).0 != key
}

/// The keys of the view of the identifier-keyed tables.
pub open spec fn id_key() -> spec_fn(u64) -> u64 {
    |k: u64| k
}

/// The keys of the view of the tables keyed by an auction and a principal.
pub open spec fn pair_key() -> spec_fn((u64, String)) -> (u64, Seq<char>) {
    |k: (u64, String)| (k.0, k.1@)
}

/// The keys of the view of the tables keyed by a principal.
pub open spec fn name_key() -> spec_fn(String) -> Seq<char> {
    |k: String| k@
}

/// Appending an entry inserts it into the map.
pub proof fn lemma_table_push<A, B>(entries: Seq<(A, B)>, key: A, value: B)
    ensures
        table_map(entries.push((key, value))) == table_map(entries).insert(key, value),
{
    assert(entries.push((key, value)).drop_last() =~= entries);
}

/// A key that no entry holds is not in the map.
pub proof fn lemma_table_absent<A, B>(entries: Seq<(A, B)>, key: A)
    requires
        is_absent(entries, key),
    ensures
        !table_map(entries).contains_key(key),
    decreases entries.len(),
{
    if entries.len() > 0 {
        lemma_table_absent(entries.drop_last(), key);
    }
}

/// The map holds, for a key, the value of the last entry that holds it.
pub proof fn lemma_table_found<A, B>(entries: Seq<(A, B)>, key: A, i: int)
    requires
        is_last_match(entries, key, i),
    ensures
        table_map(entries).contains_key(key),
        table_map(entries)[key] == entries[i].1,
    decreases entries.len(),
{
    if i < entries.len() - 1 {
        lemma_table_found(entries.drop_last(), key, i);
    }
}

/// Replacing the value of the last entry that holds a key inserts the new
/// value into the map.
pub proof fn lemma_table_update<A, B>(entries: Seq<(A, B)>, key: A, i: int, value: B)
    requires
        is_last_match(entries, key, i),
    ensures
        table_map(entries.update(i, (key, value))) == table_map(entries).insert(key, value),
    decreases entries.len(),
{
    let updated = entries.update(i, (key, value));
    if i == entries.len() - 1 {
        assert(updated.drop_last() =~= entries.drop_last());
    } else {
        assert(updated.drop_last() =~= entries.drop_last().update(i, (key, value)));
        lemma_table_update(entries.drop_last(), key, i, value);
    }
}

/// The key of every entry is in the map.
pub proof fn lemma_table_entry_key<A, B>(entries: Seq<(A, B)>, i: int)
    requires
        0 <= i < entries.len(),
    ensures
        table_map(entries).contains_key(entries[i].0),
    decreases entries.len(),
{
    if i < entries.len() - 1 {
        lemma_table_entry_key(entries.drop_last(), i);
    }
}

/// Every key of the map is the key of an entry.
pub proof fn lemma_table_key_entry<A, B>(entries: Seq<(A, B)>, key: A)
    requires
        table_map(entries).contains_key(key),
    ensures
        exists|i: int| 0 <= i < entries.len() && (#[trigger] entries[i]).0 == key,
{
    if is_absent(entries, key) {
        lemma_table_absent(entries, key);
    }
}

/// The index of the last entry of `table` under the identifier `id`.
pub fn find_by_id<V>(table: &Vec<(u64, V)>, id: u64) -> (r: Option<usize>)
    ensures
        match r {
            Some(i) => {
                &&& i < table.len()
                &&& table[i as int].0 == id
                &&& forall|j: int| i < j < table.len() ==> (#[trigger] table[j]).0 != id
            },
            None => forall|j: int| 0 <= j < table.len() ==> (#[trigger] table[j]).0 != id,
        },
{
    let mut i: usize = table.len();
    while i > 0
        invariant
            i <= table.len(),
            forall|j: int| i <= j < table.len() ==> (#[trigger] table[j]).0 != id,
        decreases i,
    {
        i = i - 1;
        if table[i].0 == id {
            return Some(i);
        }
    }
    None
}

/// The index of the last entry of `table` under the auction `id` and the
/// principal `who`.
pub fn find_by_pair<V>(table: &Vec<((u64, String), V)>, id: u64, who: &String) -> (r: Option<
    usize,
>)
    ensures
        match r {
            Some(i) => {
                &&& i < table.len()
                &&& table[i as int].0.0 == id
                &&& table[i as int].0.1@ == who@
                &&& forall|j: int|
                    i < j < table.len() ==> !((#[trigger] table[j]).0.0 == id && table[j].0.1@
                        == who@)
            },
            None => forall|j: int|
                0 <= j < table.len() ==> !((#[trigger] table[j]).0.0 == id && table[j].0.1@
                    == who@),
        },
{
    let mut i: usize = table.len();
    while i > 0
        invariant
            i <= table.len(),
            forall|j: int|
                i <= j < table.len() ==> !((#[trigger] table[j]).0.0 == id && table[j].0.1@
                    == who@),
        decreases i,
    {
        i = i - 1;
        if table[i].0.0 == id && table[i].0.1 == *who {
            return Some(i);
        }
    }
    None
}

/// The index of the last entry of `table` under the principal `who`.
pub fn find_by_name<V>(table: &Vec<(String, V)>, who: &String) -> (r: Option<usize>)
    ensures
        match r {
            Some(i) => {
                &&& i < table.len()
                &&& table[i as int].0@ == who@
                &&& forall|j: int| i < j < table.len() ==> (#[trigger] table[j]).0@ != who@
            },
            None => forall|j: int| 0 <= j < table.len() ==> (#[trigger] table[j]).0@ != who@,
        },
{
    let mut i: usize = table.len();
    while i > 0
        invariant
            i <= table.len(),
            forall|j: int| i <= j < table.len() ==> (#[trigger] table[j]).0@ != who@,
        decreases i,
    {
        i = i - 1;
        if table[i].0 == *who {
            return Some(i);
        }
    }
    None
}

/// Puts `value` under `key` in the place of the entry `found`, or at the end
/// of the table where there is no such entry.
pub fn store_at<K, V>(table: &mut Vec<(K, V)>, found: Option<usize>, key: K, value: V)
    ensures
        final(table)@ == match found {
            Some(i) if i < old(table).len() => old(table)@.update(i as int, (key, value)),
            _ => old(table)@.push((key, value)),
        },
{
    match found {
        Some(i) if i < table.len() => {
            table[i] = (key, value);
        },
        _ => {
            table.push((key, value));
        },
    }
}

/// What `store_at` does to the map that a table stands for: where `found` is
/// the last entry under the key, or the key is new, the value is inserted.
pub proof fn lemma_store_at<K, V, A, B>(
    before: Seq<(K, V)>,
    after: Seq<(K, V)>,
    key_of: spec_fn(K) -> A,
    value_of: spec_fn(V) -> B,
    found: Option<usize>,
    key: K,
    value: V,
)
    requires
        match found {
            Some(i) => is_last_match(entries(before, key_of, value_of), key_of(key), i as int),
            None => is_absent(entries(before, key_of, value_of), key_of(key)),
        },
        after == match found {
            Some(i) if i < before.len() => before.update(i as int, (key, value)),
            _ => before.push((key, value)),
        },
    ensures
        table_map(entries(after, key_of, value_of)) == table_map(
            entries(before, key_of, value_of),
        ).insert(key_of(key), value_of(value)),
{
    let e = entries(before, key_of, value_of);
    match found {
        Some(i) => {
            assert(entries(after, key_of, value_of) =~= e.update(
                i as int,
                (key_of(key), value_of(value)),
            ));
            lemma_table_update(e, key_of(key), i as int, value_of(value));
        },
        None => {
            assert(entries(after, key_of, value_of) =~= e.push((key_of(key), value_of(value))));
            lemma_table_push(e, key_of(key), value_of(value));
        },
    }
}

} // verus!
