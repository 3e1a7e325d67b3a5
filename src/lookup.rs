use vstd::prelude::*;

verus! {

/// Index of the last entry whose key is `key`: the entry that a map built by
/// inserting the entries in order would keep.
pub open spec fn last_index_of<V>(entries: Seq<(String, V)>, key: Seq<char>) -> Option<int>
    decreases entries.len(),
{
    if entries.len() == 0 {
        None
    } else if entries.last().0@ == key {
        Some(entries.len() - 1)
    } else {
        last_index_of(entries.drop_last(), key)
    }
}

proof fn lemma_last_index_in_range<V>(entries: Seq<(String, V)>, key: Seq<char>)
    ensures
        last_index_of(entries, key) matches Some(i) ==> 0 <= i < entries.len()
            && entries[i].0@ == key,
    decreases entries.len(),
{
    if entries.len() > 0 && entries.last().0@ != key {
        lemma_last_index_in_range(entries.drop_last(), key);
    }
}

/// Finds the last entry keyed by `key`.
pub fn find_last<V>(entries: &Vec<(String, V)>, key: &str) -> (r: Option<usize>)
    ensures
        match r {
            Some(i) => last_index_of(entries@, key@) == Some(i as int) && i < entries@.len()
                && entries@[i as int].0@ == key@,
            None => last_index_of(entries@, key@) is None,
        },
{
    let wanted = String::from_str(key);
    let mut i: usize = entries.len();
    assert(entries@.take(i as int) =~= entries@);
    while i > 0
        invariant
            i <= entries@.len(),
            wanted@ == key@,
            last_index_of(entries@, key@) == last_index_of(entries@.take(i as int), key@),
        decreases i,
    {
        assert(entries@.take(i as int).drop_last() =~= entries@.take(i - 1));
        i = i - 1;
        if entries[i].0 == wanted {
            proof { lemma_last_index_in_range(entries@, key@); }
            return Some(i);
        }
    }
    assert(entries@.take(0) =~= Seq::<(String, V)>::empty());
    None
}

} // verus!
