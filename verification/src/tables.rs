//! Lookup tables that are built once and only read afterwards. A later entry
//! hides an earlier one under the same key.

use vstd::prelude::*;
use crate::syntax::Path;

verus! {

/// An entry that is found by its name.
#[derive(Debug, PartialEq, Eq)]
pub struct Named<T> {
    pub name: String,
    pub value: T,
}

/// An entry that is found by a path.
#[derive(Debug, PartialEq, Eq)]
pub struct Keyed<T> {
    pub path: Path,
    pub value: T,
}

/// The place of the last entry called `name`.
pub open spec fn find_named<T>(entries: Seq<Named<T>>, name: Seq<char>) -> Option<int>
    decreases entries.len(),
{
    if entries.len() == 0 {
        None
    } else if entries.last().name@ == name {
        Some(entries.len() - 1)
    } else {
        find_named(entries.drop_last(), name)
    }
}

/// The place of the last entry under the path that `key` stands for.
pub open spec fn find_keyed<T>(entries: Seq<Keyed<T>>, key: (bool, Seq<Seq<char>>)) -> Option<int>
    decreases entries.len(),
{
    if entries.len() == 0 {
        None
    } else if entries.last().path.key() == key {
        Some(entries.len() - 1)
    } else {
        find_keyed(entries.drop_last(), key)
    }
}

/// The place of the last occurrence of `name`.
pub open spec fn find_name(names: Seq<String>, name: Seq<char>) -> Option<int>
    decreases names.len(),
{
    if names.len() == 0 {
        None
    } else if names.last()@ == name {
        Some(names.len() - 1)
    } else {
        find_name(names.drop_last(), name)
    }
}

/// What `find_named` finds lies in the table and bears the name.
pub proof fn lemma_find_named<T>(entries: Seq<Named<T>>, name: Seq<char>)
    ensures
        match find_named(entries, name) {
            Some(i) => 0 <= i < entries.len() && entries[i].name@ == name && forall|j: int|
                i < j < entries.len() ==> entries[j].name@ != name,
            None => forall|j: int| 0 <= j < entries.len() ==> entries[j].name@ != name,
        },
    decreases entries.len(),
{
    if entries.len() > 0 && entries.last().name@ != name {
        let shorter = entries.drop_last();
        lemma_find_named(shorter, name);
        assert forall|j: int| 0 <= j < shorter.len() implies shorter[j] == entries[j] by {}
        match find_named(shorter, name) {
            Some(i) => {
                assert forall|j: int| i < j < entries.len() implies entries[j].name@ != name by {
                    if j < shorter.len() {
                        assert(shorter[j] == entries[j]);
                    }
                }
            },
            None => {
                assert forall|j: int| 0 <= j < entries.len() implies entries[j].name@ != name by {
                    if j < shorter.len() {
                        assert(shorter[j] == entries[j]);
                    }
                }
            },
        }
    }
}

pub fn position_named<T>(entries: &Vec<Named<T>>, name: &String) -> (r: Option<usize>)
    ensures
        match r {
            Some(i) => find_named(entries@, name@) == Some(i as int) && i < entries.len(),
            None => find_named(entries@, name@) is None,
        },
{
    let mut i: usize = entries.len();
    assert(entries@.take(i as int) =~= entries@);
    while i > 0
        invariant
            i <= entries.len(),
            find_named(entries@, name@) == find_named(entries@.take(i as int), name@),
        decreases i,
    {
        if entries[i - 1].name == *name {
            return Some(i - 1);
        }
        assert(entries@.take(i as int).drop_last() =~= entries@.take(i - 1));
        i -= 1;
    }
    None
}

pub fn position_keyed<T>(entries: &Vec<Keyed<T>>, path: &Path) -> (r: Option<usize>)
    ensures
        match r {
            Some(i) => find_keyed(entries@, path.key()) == Some(i as int) && i < entries.len(),
            None => find_keyed(entries@, path.key()) is None,
        },
{
    let mut i: usize = entries.len();
    assert(entries@.take(i as int) =~= entries@);
    while i > 0
        invariant
            i <= entries.len(),
            find_keyed(entries@, path.key()) == find_keyed(entries@.take(i as int), path.key()),
        decreases i,
    {
        if entries[i - 1].path.is(path) {
            return Some(i - 1);
        }
        assert(entries@.take(i as int).drop_last() =~= entries@.take(i - 1));
        i -= 1;
    }
    None
}

pub fn position_name(names: &Vec<String>, name: &String) -> (r: Option<usize>)
    ensures
        match r {
            Some(i) => find_name(names@, name@) == Some(i as int) && i < names.len(),
            None => find_name(names@, name@) is None,
        },
{
    let mut i: usize = names.len();
    assert(names@.take(i as int) =~= names@);
    while i > 0
        invariant
            i <= names.len(),
            find_name(names@, name@) == find_name(names@.take(i as int), name@),
        decreases i,
    {
        if names[i - 1] == *name {
            return Some(i - 1);
        }
        assert(names@.take(i as int).drop_last() =~= names@.take(i - 1));
        i -= 1;
    }
    None
}

/// Whether the entry at place `i` is the one that its name stands for: no
/// later entry bears the same name.
pub open spec fn stands<T>(entries: Seq<Named<T>>, i: int) -> bool {
    find_named(entries, entries[i].name@) == Some(i)
}

/// Decides [`stands`].
pub fn stands_at<T>(entries: &Vec<Named<T>>, i: usize) -> (r: bool)
    requires
        i < entries.len(),
    ensures
        r == stands(entries@, i as int),
{
    match position_named(entries, &entries[i].name) {
        Some(place) => place == i,
        None => false,
    }
}

/// Each name of a table stands for one entry: of two entries that bear the
/// same name, the earlier one does not stand.
pub proof fn law_one_entry_stands_for_a_name<T>(entries: Seq<Named<T>>, i: int, j: int)
    requires
        0 <= i < j < entries.len(),
        entries[i].name@ == entries[j].name@,
    ensures
        !stands(entries, i),
{
    lemma_find_named(entries, entries[i].name@);
}

/// Whether no two entries bear the same name.
pub open spec fn distinct_names<T>(entries: Seq<Named<T>>) -> bool {
    forall|i: int, j: int| 0 <= i < j < entries.len() ==> entries[i].name@ != entries[j].name@
}

/// Where no two entries bear the same name, every entry stands for its
/// name.
pub proof fn law_distinct_names_all_stand<T>(entries: Seq<Named<T>>, i: int)
    requires
        distinct_names(entries),
        0 <= i < entries.len(),
    ensures
        stands(entries, i),
{
    lemma_find_named(entries, entries[i].name@);
}

/// What the last entry called `name` holds.
pub open spec fn value_of<T>(entries: Seq<Named<T>>, name: Seq<char>) -> Option<T> {
    match find_named(entries, name) {
        Some(i) => Some(entries[i].value),
        None => None,
    }
}

/// An entry that takes the place of one of the same name changes what that
/// name stands for and nothing else.
pub proof fn lemma_update_keeps_others<T>(
    entries: Seq<Named<T>>,
    i: int,
    entry: Named<T>,
    name: Seq<char>,
)
    requires
        0 <= i < entries.len(),
        entries[i].name@ == entry.name@,
    ensures
        find_named(entries.update(i, entry), name) == find_named(entries, name),
    decreases entries.len(),
{
    let updated = entries.update(i, entry);
    if i == entries.len() - 1 {
        assert(updated.drop_last() =~= entries.drop_last());
    } else {
        assert(updated.drop_last() =~= entries.drop_last().update(i, entry));
        lemma_update_keeps_others(entries.drop_last(), i, entry, name);
    }
}

/// A new entry at the end stands for its name and leaves the other names
/// as they were.
pub proof fn lemma_push_keeps_others<T>(entries: Seq<Named<T>>, entry: Named<T>, name: Seq<char>)
    ensures
        find_named(entries.push(entry), name) == if entry.name@ == name {
            Some(entries.len() as int)
        } else {
            find_named(entries, name)
        },
{
    assert(entries.push(entry).drop_last() =~= entries);
}

} // verus!
