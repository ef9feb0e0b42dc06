//! A mapping from strings to values, kept as the list of its entries.
use vstd::prelude::*;
use vstd::string::*;

verus! {

/// The mapping that a list of entries stands for. Where a key has several
/// entries, the last of them counts.
pub open spec fn mapping<V>(entries: Seq<(String, V)>) -> Map<Seq<char>, V>
    decreases entries.len(),
{
    if entries.len() == 0 {
        Map::empty()
    } else {
        mapping(entries.drop_last()).insert(entries.last().0@, entries.last().1)
    }
}

/// Entries that do not hold `key` add nothing to what the mapping says of it.
pub proof fn lemma_mapping_front<V>(entries: Seq<(String, V)>, key: Seq<char>, n: int)
    requires
        0 <= n <= entries.len(),
        forall|j: int| n <= j < entries.len() ==> entries[j].0@ != key,
    ensures
        mapping(entries).dom().contains(key) == mapping(entries.take(n)).dom().contains(key),
        mapping(entries).dom().contains(key) ==> mapping(entries)[key] == mapping(
            entries.take(n),
        )[key],
    decreases entries.len(),
{
    if n == entries.len() {
        assert(entries.take(n) =~= entries);
    } else {
        assert(entries.drop_last().take(n) =~= entries.take(n));
        lemma_mapping_front(entries.drop_last(), key, n);
    }
}

/// Writing a new value into the last entry of a key is an insertion.
pub proof fn lemma_mapping_update<V>(entries: Seq<(String, V)>, i: int, key: String, value: V)
    requires
        0 <= i < entries.len(),
        entries[i].0@ == key@,
        forall|j: int| i < j < entries.len() ==> entries[j].0@ != key@,
    ensures
        mapping(entries.update(i, (key, value))) == mapping(entries).insert(key@, value),
    decreases entries.len(),
{
    let updated = entries.update(i, (key, value));
    if i == entries.len() - 1 {
        assert(updated.drop_last() =~= entries.drop_last());
        assert(mapping(updated) =~= mapping(entries).insert(key@, value));
    } else {
        assert(updated.drop_last() =~= entries.drop_last().update(i, (key, value)));
        lemma_mapping_update(entries.drop_last(), i, key, value);
        assert(mapping(updated) =~= mapping(entries).insert(key@, value));
    }
}

/// The place of the last entry of `key`, if it has one.
pub fn find<V>(entries: &Vec<(String, V)>, key: &str) -> (r: Option<usize>)
    ensures
        r is Some == mapping(entries@).dom().contains(key@),
        match r {
            Some(i) => {
                &&& i < entries.len()
                &&& entries[i as int].0@ == key@
                &&& mapping(entries@)[key@] == entries[i as int].1
                &&& forall|j: int| i < j < entries.len() ==> entries[j].0@ != key@
            },
            None => true,
        },
{
    let wanted: String = String::from_str(key);
    let mut i: usize = entries.len();
    while i > 0
        invariant
            i <= entries.len(),
            wanted@ == key@,
            forall|j: int| i <= j < entries.len() ==> entries[j].0@ != key@,
        decreases i,
    {
        i = i - 1;
        if entries[i].0 == wanted {
            proof {
                lemma_mapping_front(entries@, key@, i + 1);
                assert(entries@.take(i + 1).drop_last() =~= entries@.take(i as int));
            }
            return Some(i);
        }
    }
    proof {
        lemma_mapping_front(entries@, key@, 0);
    }
    None
}

/// Gives `key` the value `value`, in place of the one it had, if any.
pub fn put<V>(entries: &mut Vec<(String, V)>, key: String, value: V)
    ensures
        mapping(final(entries)@) == mapping(old(entries)@).insert(key@, value),
{
    match find(entries, key.as_str()) {
        Some(i) => {
            proof {
                lemma_mapping_update(entries@, i as int, key, value);
            }
            entries.set(i, (key, value));
        },
        None => {
            assert(entries@.push((key, value)).drop_last() =~= entries@);
            entries.push((key, value));
        },
    }
}

} // verus!
