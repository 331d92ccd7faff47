//! Association lists keyed by strings: the shape in which both the store
//! model and the in-memory registry hold their entries, with the lookup
//! facts their contracts rest on.

use vstd::prelude::*;

verus! {

/// The value under `key`, taking the first entry whose key reads as `key`.
pub open spec fn spec_find<T>(entries: Seq<(String, T)>, key: Seq<char>) -> Option<T>
    decreases entries.len(),
{
    if entries.len() == 0 {
        None
    } else if entries[0].0@ == key {
        Some(entries[0].1)
    } else {
        spec_find(entries.drop_first(), key)
    }
}

/// No two entries share a key text.
pub open spec fn unique_keys<T>(entries: Seq<(String, T)>) -> bool {
    forall|i: int, j: int|
        0 <= i < j < entries.len() ==> entries[i].0@ != entries[j].0@
}

/// A found value sits at some index with that key; a missing key is at no
/// index.
pub proof fn lemma_find_index<T>(entries: Seq<(String, T)>, i: int, key: Seq<char>)
    requires
        0 <= i < entries.len(),
        entries[i].0@ == key,
        unique_keys(entries),
    ensures
        spec_find(entries, key) == Some(entries[i].1),
    decreases entries.len(),
{
    if i > 0 {
        assert(entries.drop_first()[i - 1] == entries[i]);
        assert(unique_keys(entries.drop_first())) by {
            assert forall|a: int, b: int|
                0 <= a < b < entries.drop_first().len() implies entries.drop_first()[a].0@
                != entries.drop_first()[b].0@ by {
                assert(entries.drop_first()[a] == entries[a + 1]);
                assert(entries.drop_first()[b] == entries[b + 1]);
            }
        }
        lemma_find_index(entries.drop_first(), i - 1, key);
    }
}

/// A key that no entry carries is not found.
pub proof fn lemma_find_none<T>(entries: Seq<(String, T)>, key: Seq<char>)
    requires
        forall|i: int| 0 <= i < entries.len() ==> entries[i].0@ != key,
    ensures
        spec_find(entries, key) is None,
    decreases entries.len(),
{
    if entries.len() > 0 {
        assert(forall|i: int|
            0 <= i < entries.drop_first().len() ==> entries.drop_first()[i].0@ != key);
        lemma_find_none(entries.drop_first(), key);
    }
}

/// A lookup that finds nothing means no entry carries the key.
pub proof fn lemma_find_none_rev<T>(entries: Seq<(String, T)>, key: Seq<char>)
    requires
        spec_find(entries, key) is None,
    ensures
        forall|j: int| 0 <= j < entries.len() ==> entries[j].0@ != key,
    decreases entries.len(),
{
    if entries.len() > 0 {
        lemma_find_none_rev(entries.drop_first(), key);
        assert forall|j: int| 0 <= j < entries.len() implies entries[j].0@ != key by {
            if j > 0 {
                assert(entries.drop_first()[j - 1] == entries[j]);
            }
        }
    }
}

/// Replacing the entry at index `i` by one carrying the same key text
/// rewrites that key's lookup and no other.
pub proof fn lemma_find_update<T>(entries: Seq<(String, T)>, i: int, e: (String, T), k: Seq<char>)
    requires
        0 <= i < entries.len(),
        unique_keys(entries),
        e.0@ == entries[i].0@,
    ensures
        spec_find(entries.update(i, e), k) == (if k == entries[i].0@ {
            Some(e.1)
        } else {
            spec_find(entries, k)
        }),
    decreases entries.len(),
{
    let updated = entries.update(i, e);
    if i == 0 {
        if k != entries[0].0@ {
            assert(updated.drop_first() =~= entries.drop_first());
        }
    } else {
        assert(updated[0] == entries[0]);
        assert(updated.drop_first() =~= entries.drop_first().update(i - 1, e));
        assert(entries.drop_first()[i - 1] == entries[i]);
        assert(unique_keys(entries.drop_first())) by {
            assert forall|a: int, b: int|
                0 <= a < b < entries.drop_first().len() implies entries.drop_first()[a].0@
                != entries.drop_first()[b].0@ by {
                assert(entries.drop_first()[a] == entries[a + 1]);
                assert(entries.drop_first()[b] == entries[b + 1]);
            }
        }
        lemma_find_update(entries.drop_first(), i - 1, e, k);
    }
}

/// Appending an entry adds its key's lookup and touches no present key.
pub proof fn lemma_find_push<T>(entries: Seq<(String, T)>, e: (String, T), k: Seq<char>)
    ensures
        spec_find(entries.push(e), k) == (if spec_find(entries, k) is Some {
            spec_find(entries, k)
        } else if e.0@ == k {
            Some(e.1)
        } else {
            None
        }),
    decreases entries.len(),
{
    if entries.len() == 0 {
        assert(entries.push(e)[0] == e);
        let rest = entries.push(e).drop_first();
        assert(rest =~= entries);
        assert(spec_find(rest, k) is None);
    } else {
        assert(entries.push(e)[0] == entries[0]);
        assert(entries.push(e).drop_first() =~= entries.drop_first().push(e));
        lemma_find_push(entries.drop_first(), e, k);
        assert(spec_find(entries.push(e), k) == (if entries[0].0@ == k {
            Some(entries[0].1)
        } else {
            spec_find(entries.drop_first().push(e), k)
        }));
    }
}

/// Removing the entry at index `i` drops its key's lookup and no other.
pub proof fn lemma_find_remove<T>(entries: Seq<(String, T)>, i: int, k: Seq<char>)
    requires
        0 <= i < entries.len(),
        unique_keys(entries),
    ensures
        spec_find(entries.remove(i), k) == (if k == entries[i].0@ {
            Option::<T>::None
        } else {
            spec_find(entries, k)
        }),
    decreases entries.len(),
{
    let removed = entries.remove(i);
    if i == 0 {
        assert(removed =~= entries.drop_first());
        if k == entries[0].0@ {
            assert(forall|j: int| 0 <= j < removed.len() ==> removed[j].0@ != k);
            lemma_find_none(removed, k);
        }
    } else {
        assert(removed[0] == entries[0]);
        assert(removed.drop_first() =~= entries.drop_first().remove(i - 1));
        assert(entries.drop_first()[i - 1] == entries[i]);
        assert(unique_keys(entries.drop_first())) by {
            assert forall|a: int, b: int|
                0 <= a < b < entries.drop_first().len() implies entries.drop_first()[a].0@
                != entries.drop_first()[b].0@ by {
                assert(entries.drop_first()[a] == entries[a + 1]);
                assert(entries.drop_first()[b] == entries[b + 1]);
            }
        }
        lemma_find_remove(entries.drop_first(), i - 1, k);
    }
}

/// Find the index of the entry whose key text equals `key`, if any.
pub fn find_index<T>(entries: &Vec<(String, T)>, key: &String) -> (r: Option<usize>)
    requires
        unique_keys(entries@),
    ensures
        r is Some ==> {
            let i = r->Some_0;
            &&& i < entries@.len()
            &&& entries@[i as int].0@ == key@
            &&& spec_find(entries@, key@) == Some(entries@[i as int].1)
        },
        r is None ==> spec_find(entries@, key@) is None,
{
    let mut i: usize = 0;
    while i < entries.len()
        invariant
            0 <= i <= entries@.len(),
            unique_keys(entries@),
            forall|j: int| 0 <= j < i ==> entries@[j].0@ != key@,
        decreases entries@.len() - i,
    {
        if entries[i].0 == *key {
            proof {
                lemma_find_index(entries@, i as int, key@);
            }
            return Some(i);
        }
        i = i + 1;
    }
    proof {
        lemma_find_none(entries@, key@);
    }
    None
}

} // verus!
