//! Buckets of named entries: the feature flags and the defines of one scope.
//!
//! A bucket keeps its entries in the order in which their names were first
//! set. Setting a name that the bucket already holds replaces that entry's
//! value where it stands, so a name never occurs twice and the last value set
//! is the one that counts.

use vstd::prelude::*;
use vstd::string::*;

verus! {

/// The names of the entries, in order.
pub open spec fn entry_names<V>(entries: Seq<(Seq<char>, V)>) -> Seq<Seq<char>> {
    Seq::new(entries.len(), |i: int| entries[i].0)
}

/// No name occurs twice.
pub open spec fn distinct(names: Seq<Seq<char>>) -> bool {
    forall|i: int, j: int| 0 <= i < j < names.len() ==> names[i] != names[j]
}

/// The position of the first occurrence of `name`, or the number of names if
/// it does not occur.
pub open spec fn index_of(names: Seq<Seq<char>>, name: Seq<char>) -> nat
    decreases names.len(),
{
    if names.len() == 0 {
        0
    } else if names[0] == name {
        0
    } else {
        1 + index_of(names.drop_first(), name)
    }
}

/// The entries after `name` has been set to `value`.
pub open spec fn with_entry<V>(
    entries: Seq<(Seq<char>, V)>,
    name: Seq<char>,
    value: V,
) -> Seq<(Seq<char>, V)> {
    let at = index_of(entry_names(entries), name);
    if at < entries.len() {
        entries.update(at as int, (name, value))
    } else {
        entries.push((name, value))
    }
}

/// The entries after the first `n` entries of `table` have been set, one
/// after the other.
pub open spec fn with_entries<V>(
    entries: Seq<(Seq<char>, V)>,
    table: Seq<(Seq<char>, V)>,
    n: nat,
) -> Seq<(Seq<char>, V)>
    decreases n,
{
    if n == 0 {
        entries
    } else {
        with_entry(with_entries(entries, table, (n - 1) as nat), table[n - 1].0, table[n - 1].1)
    }
}

/// The value that the entries give to `name`, if any.
pub open spec fn value_of<V>(entries: Seq<(Seq<char>, V)>, name: Seq<char>) -> Option<V> {
    let at = index_of(entry_names(entries), name);
    if at < entries.len() {
        Some(entries[at as int].1)
    } else {
        None
    }
}

/// What `index_of` finds: a position within bounds holds the name, and no
/// position before it does.
pub proof fn lemma_index_of(names: Seq<Seq<char>>, name: Seq<char>)
    ensures
        index_of(names, name) <= names.len(),
        index_of(names, name) < names.len() ==> names[index_of(names, name) as int] == name,
        forall|j: int| 0 <= j < index_of(names, name) ==> names[j] != name,
    decreases names.len(),
{
    if names.len() > 0 && names[0] != name {
        let rest = names.drop_first();
        lemma_index_of(rest, name);
        assert forall|j: int| 0 <= j < index_of(names, name) implies names[j] != name by {
            if j > 0 {
                assert(rest[j - 1] == names[j]);
            }
        }
    }
}

/// A position that holds the name, with none before it that does, is the one
/// that `index_of` finds.
pub proof fn lemma_index_of_is(names: Seq<Seq<char>>, name: Seq<char>, at: int)
    requires
        0 <= at <= names.len(),
        at < names.len() ==> names[at] == name,
        forall|j: int| 0 <= j < at ==> names[j] != name,
    ensures
        index_of(names, name) == at,
{
    lemma_index_of(names, name);
}

/// Setting an entry keeps the names distinct.
pub proof fn lemma_with_entry_distinct<V>(entries: Seq<(Seq<char>, V)>, name: Seq<char>, value: V)
    requires
        distinct(entry_names(entries)),
    ensures
        distinct(entry_names(with_entry(entries, name, value))),
{
    let names = entry_names(entries);
    let after = entry_names(with_entry(entries, name, value));
    lemma_index_of(names, name);
    let at = index_of(names, name);
    assert forall|i: int, j: int| 0 <= i < j < after.len() implies after[i] != after[j] by {
        if at < entries.len() {
            assert(after[i] == names[i]);
            assert(after[j] == names[j]);
        } else {
            if j < names.len() {
                assert(after[i] == names[i]);
                assert(after[j] == names[j]);
            } else {
                assert(after[i] == names[i]);
            }
        }
    }
}

/// Setting a table of entries keeps the names distinct.
pub proof fn lemma_with_entries_distinct<V>(
    entries: Seq<(Seq<char>, V)>,
    table: Seq<(Seq<char>, V)>,
    n: nat,
)
    requires
        distinct(entry_names(entries)),
        n <= table.len(),
    ensures
        distinct(entry_names(with_entries(entries, table, n))),
    decreases n,
{
    if n > 0 {
        lemma_with_entries_distinct(entries, table, (n - 1) as nat);
        lemma_with_entry_distinct(
            with_entries(entries, table, (n - 1) as nat),
            table[n - 1].0,
            table[n - 1].1,
        );
    }
}

/// The last write wins: after `name` has been set to `value`, the entries give
/// it that value, whatever they gave it before.
pub proof fn lemma_last_write_wins<V>(entries: Seq<(Seq<char>, V)>, name: Seq<char>, value: V)
    ensures
        value_of(with_entry(entries, name, value), name) == Some(value),
{
    let names = entry_names(entries);
    let after = with_entry(entries, name, value);
    lemma_index_of(names, name);
    let at = index_of(names, name);
    assert forall|j: int| 0 <= j < at implies entry_names(after)[j] != name by {
        assert(entry_names(after)[j] == names[j]);
    }
    lemma_index_of_is(entry_names(after), name, at as int);
}

/// Setting one name leaves the value of every other name as it was.
pub proof fn lemma_other_names_keep_their_value<V>(
    entries: Seq<(Seq<char>, V)>,
    name: Seq<char>,
    value: V,
    other: Seq<char>,
)
    requires
        other != name,
    ensures
        value_of(with_entry(entries, name, value), other) == value_of(entries, other),
{
    let names = entry_names(entries);
    let after = with_entry(entries, name, value);
    lemma_index_of(names, name);
    lemma_index_of(names, other);
    let at = index_of(names, other);
    assert forall|j: int| 0 <= j < at implies entry_names(after)[j] != other by {
        if j < names.len() {
            if j != index_of(names, name) {
                assert(entry_names(after)[j] == names[j]);
            }
        }
    }
    if at < names.len() {
        assert(entry_names(after)[at as int] == names[at as int]);
        lemma_index_of_is(entry_names(after), other, at as int);
    } else {
        assert(at == names.len());
        if index_of(names, name) < names.len() {
            lemma_index_of_is(entry_names(after), other, at as int);
        } else {
            assert(entry_names(after)[at as int] == name);
            lemma_index_of_is(entry_names(after), other, at as int + 1);
        }
    }
}

/// Setting a name that the bucket holds changes neither the number of entries
/// nor their order; setting a new name adds it at the end.
pub proof fn lemma_with_entry_keeps_order<V>(
    entries: Seq<(Seq<char>, V)>,
    name: Seq<char>,
    value: V,
)
    ensures
        index_of(entry_names(entries), name) < entries.len() ==> entry_names(
            with_entry(entries, name, value),
        ) == entry_names(entries),
        index_of(entry_names(entries), name) >= entries.len() ==> entry_names(
            with_entry(entries, name, value),
        ) == entry_names(entries).push(name),
{
    let names = entry_names(entries);
    lemma_index_of(names, name);
    let after = entry_names(with_entry(entries, name, value));
    if index_of(names, name) < entries.len() {
        assert(after =~= names);
    } else {
        assert(after =~= names.push(name));
    }
}

/// The names of a vector of entries, as a sequence of texts.
pub open spec fn names_of<V>(entries: Seq<(String, V)>) -> Seq<Seq<char>> {
    Seq::new(entries.len(), |i: int| entries[i].0@)
}

/// Finds the position of the entry named `name`; the number of entries if
/// there is none.
pub fn find_entry<V>(entries: &Vec<(String, V)>, name: &String) -> (at: usize)
    ensures
        at == index_of(names_of(entries@), name@),
        at <= entries@.len(),
{
    let mut at: usize = 0;
    while at < entries.len()
        invariant
            at <= entries@.len(),
            forall|j: int| 0 <= j < at ==> names_of(entries@)[j] != name@,
        decreases entries@.len() - at,
    {
        if entries[at].0 == *name {
            proof {
                assert(names_of(entries@)[at as int] == name@);
                lemma_index_of_is(names_of(entries@), name@, at as int);
            }
            return at;
        }
        proof {
            assert(names_of(entries@)[at as int] != name@);
        }
        at += 1;
    }
    proof {
        lemma_index_of_is(names_of(entries@), name@, at as int);
    }
    at
}

/// Sets the feature `name` to `enabled`.
pub fn set_feature_entry(entries: &mut Vec<(String, bool)>, name: &str, enabled: bool)
    ensures
        final(entries).deep_view() == with_entry(old(entries).deep_view(), name@, enabled),
{
    let name = String::from_str(name);
    let ghost before = entries.deep_view();
    proof {
        assert(names_of(entries@) =~= entry_names(before));
    }
    let at = find_entry(entries, &name);
    if at < entries.len() {
        entries[at] = (name, enabled);
        assert(entries.deep_view() =~= before.update(at as int, (name@, enabled)));
    } else {
        entries.push((name, enabled));
        assert(entries.deep_view() =~= before.push((name@, enabled)));
    }
}

/// Sets the define `key` to `value`.
pub fn set_define_entry(entries: &mut Vec<(String, String)>, key: &str, value: &str)
    ensures
        final(entries).deep_view() == with_entry(old(entries).deep_view(), key@, value@),
{
    let key = String::from_str(key);
    let value = String::from_str(value);
    let ghost before = entries.deep_view();
    proof {
        assert(names_of(entries@) =~= entry_names(before));
    }
    let at = find_entry(entries, &key);
    if at < entries.len() {
        entries[at] = (key, value);
        assert(entries.deep_view() =~= before.update(at as int, (key@, value@)));
    } else {
        entries.push((key, value));
        assert(entries.deep_view() =~= before.push((key@, value@)));
    }
}

} // verus!
