//! A table from event kinds to values, kept as a list of entries in which no
//! key occurs twice.

use crate::event::{EventKey, LambdaEventType};
use vstd::prelude::*;

verus! {

/// One key of a table with the value stored under it.
#[derive(Debug)]
pub struct Entry<V> {
    pub key: LambdaEventType,
    pub value: V,
}

/// A table keyed by event kind. Its view is the map from the view of each key
/// to the value stored under it.
#[derive(Debug)]
pub struct Table<V> {
    entries: Vec<Entry<V>>,
}

/// No two entries of `entries` have the same key.
pub open spec fn keys_distinct<V>(entries: Seq<Entry<V>>) -> bool {
    forall|i: int, j: int|
        0 <= i < j < entries.len() ==> (#[trigger] entries[i]).key@ != (#[trigger] entries[j]).key@
}

/// No entry of `entries` has the key `key`.
pub open spec fn key_absent<V>(entries: Seq<Entry<V>>, key: EventKey) -> bool {
    forall|i: int| 0 <= i < entries.len() ==> (#[trigger] entries[i]).key@ != key
}

/// The map that `entries` stands for: each entry in turn is written into the
/// map, so a later entry would replace an earlier one with the same key.
pub open spec fn entries_map<V>(entries: Seq<Entry<V>>) -> Map<EventKey, V>
    decreases entries.len(),
{
    if entries.len() == 0 {
        Map::empty()
    } else {
        entries_map(entries.drop_last()).insert(entries.last().key@, entries.last().value)
    }
}

/// Appending an entry writes it into the map.
pub proof fn lemma_push_entry<V>(entries: Seq<Entry<V>>, entry: Entry<V>)
    ensures
        entries_map(entries.push(entry)) == entries_map(entries).insert(entry.key@, entry.value),
        keys_distinct(entries) && key_absent(entries, entry.key@) ==> keys_distinct(
            entries.push(entry),
        ),
{
    assert(entries.push(entry).drop_last() =~= entries);
}

/// A key is in the map only if some entry has it.
pub proof fn lemma_absent_key<V>(entries: Seq<Entry<V>>, key: EventKey)
    requires
        key_absent(entries, key),
    ensures
        !entries_map(entries).dom().contains(key),
    decreases entries.len(),
{
    if entries.len() > 0 {
        let prefix = entries.drop_last();
        assert(entries.last() == entries[entries.len() - 1]);
        assert forall|i: int| 0 <= i < prefix.len() implies (#[trigger] prefix[i]).key@ != key by {
            assert(prefix[i] == entries[i]);
        }
        lemma_absent_key(prefix, key);
    }
}

/// Dropping the last entry keeps the keys distinct.
pub proof fn lemma_distinct_prefix<V>(entries: Seq<Entry<V>>)
    requires
        keys_distinct(entries),
        entries.len() > 0,
    ensures
        keys_distinct(entries.drop_last()),
{
    let prefix = entries.drop_last();
    assert forall|i: int, j: int| 0 <= i < j < prefix.len() implies (#[trigger] prefix[i]).key@ != (
    #[trigger] prefix[j]).key@ by {
        assert(prefix[i] == entries[i]);
        assert(prefix[j] == entries[j]);
    }
}

/// Where keys are distinct, the map holds each entry's value under its key.
pub proof fn lemma_present_key<V>(entries: Seq<Entry<V>>, at: int)
    requires
        keys_distinct(entries),
        0 <= at < entries.len(),
    ensures
        entries_map(entries).dom().contains(entries[at].key@),
        entries_map(entries)[entries[at].key@] == entries[at].value,
    decreases entries.len(),
{
    let last = entries.len() - 1;
    if at < last {
        assert(entries[at].key@ != entries[last].key@);
        assert(entries.drop_last()[at] == entries[at]);
        lemma_distinct_prefix(entries);
        lemma_present_key(entries.drop_last(), at);
    }
}

/// Where keys are distinct, replacing an entry by one with the same key
/// writes the new entry into the map and keeps the keys distinct.
pub proof fn lemma_replace_entry<V>(entries: Seq<Entry<V>>, at: int, entry: Entry<V>)
    requires
        keys_distinct(entries),
        0 <= at < entries.len(),
        entry.key@ == entries[at].key@,
    ensures
        keys_distinct(entries.update(at, entry)),
        entries_map(entries.update(at, entry)) == entries_map(entries).insert(
            entry.key@,
            entry.value,
        ),
    decreases entries.len(),
{
    let updated = entries.update(at, entry);
    assert forall|i: int, j: int| 0 <= i < j < updated.len() implies (#[trigger] updated[i]).key@ != (
    #[trigger] updated[j]).key@ by {
        assert(updated[i].key@ == entries[i].key@);
        assert(updated[j].key@ == entries[j].key@);
    }
    let last = entries.len() - 1;
    if at == last {
        assert(updated.drop_last() =~= entries.drop_last());
        assert(entries_map(updated) =~= entries_map(entries).insert(entry.key@, entry.value));
    } else {
        assert(entries[at].key@ != entries[last].key@);
        assert(updated.drop_last() =~= entries.drop_last().update(at, entry));
        assert(entries.drop_last()[at] == entries[at]);
        lemma_distinct_prefix(entries);
        lemma_replace_entry(entries.drop_last(), at, entry);
        assert(entries_map(updated) =~= entries_map(entries).insert(entry.key@, entry.value));
    }
}

/// Two lists with the same keys in the same places stand for maps with the
/// same keys.
pub proof fn lemma_same_keys<V>(left: Seq<Entry<V>>, right: Seq<Entry<V>>)
    requires
        left.len() == right.len(),
        forall|i: int| 0 <= i < left.len() ==> (#[trigger] left[i]).key@ == right[i].key@,
    ensures
        entries_map(left).dom() == entries_map(right).dom(),
        keys_distinct(left) ==> keys_distinct(right),
    decreases left.len(),
{
    if left.len() > 0 {
        let left_prefix = left.drop_last();
        let right_prefix = right.drop_last();
        assert forall|i: int| 0 <= i < left_prefix.len() implies (#[trigger] left_prefix[i]).key@
            == right_prefix[i].key@ by {
            assert(left_prefix[i] == left[i]);
        }
        lemma_same_keys(left_prefix, right_prefix);
        assert(left[left.len() - 1].key@ == right[left.len() - 1].key@);
        assert(entries_map(left).dom() =~= entries_map(right).dom());
    }
    if keys_distinct(left) {
        assert forall|i: int, j: int| 0 <= i < j < right.len() implies (#[trigger] right[i]).key@
            != (#[trigger] right[j]).key@ by {
            assert(left[i].key@ == right[i].key@);
            assert(left[j].key@ == right[j].key@);
        }
    }
}

/// Every key of the map is the key of some entry.
pub proof fn lemma_key_has_entry<V>(entries: Seq<Entry<V>>, key: EventKey) -> (at: int)
    requires
        entries_map(entries).dom().contains(key),
    ensures
        0 <= at < entries.len(),
        entries[at].key@ == key,
{
    if key_absent(entries, key) {
        lemma_absent_key(entries, key);
    }
    choose|i: int| 0 <= i < entries.len() && (#[trigger] entries[i]).key@ == key
}

impl<V: Clone> Clone for Entry<V> {
    fn clone(&self) -> (copy: Self)
        ensures
            copy.key == self.key,
            cloned::<V>(self.value, copy.value),
    {
        Entry { key: self.key.clone(), value: self.value.clone() }
    }
}

impl<V: Clone> Clone for Table<V> {
    /// The copy has the keys of `self`, and under each a clone of the value
    /// that `self` has there.
    fn clone(&self) -> (copy: Self)
        ensures
            copy@.dom() == self@.dom(),
            forall|key: EventKey| #[trigger]
                copy@.dom().contains(key) ==> cloned::<V>(self@[key], copy@[key]),
    {
        proof {
            use_type_invariant(self);
        }
        let mut entries: Vec<Entry<V>> = Vec::new();
        let mut at: usize = 0;
        while at < self.entries.len()
            invariant
                at <= self.entries.len(),
                entries.len() == at,
                forall|i: int|
                    0 <= i < at ==> (#[trigger] self.entries[i]).key@ == entries[i].key@
                        && cloned::<V>(self.entries[i].value, entries[i].value),
            decreases self.entries.len() - at,
        {
            entries.push(self.entries[at].clone());
            at += 1;
        }
        proof {
            let source = self.entries@;
            let target = entries@;
            lemma_same_keys(source, target);
            assert forall|key: EventKey| #[trigger]
                entries_map(target).dom().contains(key) implies cloned::<V>(
                entries_map(source)[key],
                entries_map(target)[key],
            ) by {
                let i = lemma_key_has_entry(target, key);
                assert(source[i].key@ == target[i].key@);
                lemma_present_key(source, i);
                lemma_present_key(target, i);
            }
        }
        Table { entries }
    }
}

impl<V> View for Table<V> {
    type V = Map<EventKey, V>;

    closed spec fn view(&self) -> Map<EventKey, V> {
        entries_map(self.entries@)
    }
}

impl<V> Table<V> {
    #[verifier::type_invariant]
    spec fn well_formed(self) -> bool {
        keys_distinct(self.entries@)
    }

    /// A table without entries.
    pub fn new() -> (table: Self)
        ensures
            table@ == Map::<EventKey, V>::empty(),
    {
        Table { entries: Vec::new() }
    }

    /// The index of the entry with the key `key`, if there is one.
    fn position(entries: &Vec<Entry<V>>, key: &LambdaEventType) -> (found: Option<usize>)
        ensures
            match found {
                Some(at) => at < entries.len() && entries[at as int].key@ == key@,
                None => key_absent(entries@, key@),
            },
    {
        let mut at: usize = 0;
        while at < entries.len()
            invariant
                at <= entries.len(),
                forall|i: int| 0 <= i < at ==> (#[trigger] entries[i]).key@ != key@,
            decreases entries.len() - at,
        {
            if entries[at].key == *key {
                return Some(at);
            }
            at += 1;
        }
        None
    }

    /// The value stored under exactly `key`.
    pub fn get(&self, key: &LambdaEventType) -> (found: Option<&V>)
        ensures
            match found {
                Some(value) => self@.dom().contains(key@) && self@[key@] == *value,
                None => !self@.dom().contains(key@),
            },
    {
        proof {
            use_type_invariant(self);
        }
        match Self::position(&self.entries, key) {
            Some(at) => {
                proof {
                    lemma_present_key(self.entries@, at as int);
                }
                Some(&self.entries[at].value)
            },
            None => {
                proof {
                    lemma_absent_key(self.entries@, key@);
                }
                None
            },
        }
    }

    /// Stores `value` under exactly `key`, in place of what was stored there.
    pub fn insert(&mut self, key: LambdaEventType, value: V)
        ensures
            final(self)@ == old(self)@.insert(key@, value),
    {
        proof {
            use_type_invariant(&*self);
        }
        let mut entries: Vec<Entry<V>> = Vec::new();
        std::mem::swap(&mut entries, &mut self.entries);
        let found = Self::position(&entries, &key);
        let entry = Entry { key, value };
        match found {
            Some(at) => {
                proof {
                    lemma_replace_entry(entries@, at as int, entry);
                }
                entries.set(at, entry);
            },
            None => {
                proof {
                    lemma_push_entry(entries@, entry);
                }
                entries.push(entry);
            },
        }
        self.entries = entries;
    }
}

} // verus!
