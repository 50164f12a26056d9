//! The state store every module keeps its slice of state in: a journal of
//! `(key, value)` entries where the entry written last governs. A key that no
//! entry mentions is absent, which the modules read as the zero (or unclaimed)
//! state — a reader cannot tell "never written" from "written its default".

use vstd::prelude::*;

use crate::primitives::StateKey;

verus! {

/// The value the journal holds for `key`: that of the last entry whose key
/// has model `key`, or `None` when no entry does.
pub open spec fn journal_get<K: StateKey, V>(entries: Seq<(K, V)>, key: K::Model) -> Option<V>
    decreases entries.len(),
{
    if entries.len() == 0 {
        None
    } else if entries.last().0.model() == key {
        Some(entries.last().1)
    } else {
        journal_get(entries.drop_last(), key)
    }
}

/// Finds the index of the entry that governs `key`: the last entry whose key
/// matches. Returns `None` when the journal holds nothing for `key`.
pub fn journal_find<K: StateKey, V>(entries: &Vec<(K, V)>, key: &K) -> (r: Option<usize>)
    ensures
        match r {
            Some(i) => i < entries@.len() && entries@[i as int].0.model() == key.model()
                && journal_get(entries@, key.model()) == Some(entries@[i as int].1),
            None => journal_get(entries@, key.model()) is None,
        },
{
    let mut i: usize = entries.len();
    proof {
        assert(entries@.take(i as int) =~= entries@);
    }
    while i > 0
        invariant
            i <= entries@.len(),
            journal_get(entries@, key.model()) == journal_get(
                entries@.take(i as int),
                key.model(),
            ),
        decreases i,
    {
        i = i - 1;
        let pair = &entries[i];
        if pair.0.key_eq(key) {
            proof {
                assert(entries@.take(i + 1).last() == entries@[i as int]);
            }
            return Some(i);
        }
        proof {
            assert(entries@.take(i + 1).drop_last() =~= entries@.take(i as int));
        }
    }
    None
}

/// Appending an entry changes what the journal holds for that entry's key and
/// for no other.
pub proof fn lemma_journal_get_push<K: StateKey, V>(
    entries: Seq<(K, V)>,
    entry: (K, V),
    key: K::Model,
)
    ensures
        journal_get(entries.push(entry), key) == (if entry.0.model() == key {
            Some(entry.1)
        } else {
            journal_get(entries, key)
        }),
{
    assert(entries.push(entry).drop_last() =~= entries);
}

} // verus!
