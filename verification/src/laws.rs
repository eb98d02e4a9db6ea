//! What holds of the mapper's reads and writes, stated over the maps that
//! its contracts speak of.

use crate::defaults::{default_event_map, default_response_map};
use crate::event::{is_builtin_key, lookup_key, EventKey};
use crate::mapper::lookup;
use crate::sorting::{lemma_text_precedes_irreflexive, strictly_sorted, text_precedes};
use vstd::prelude::*;

verus! {

/// A new mapper holds an event mapping and a response mapping under each
/// built-in event kind and under no other key, so a read for a built-in kind
/// finds both.
pub proof fn lemma_builtin_kinds_are_mapped(key: EventKey)
    ensures
        default_event_map().dom().contains(key) <==> is_builtin_key(key),
        default_response_map().dom().contains(key) <==> is_builtin_key(key),
        is_builtin_key(key) ==> lookup(default_event_map(), key) is Some && lookup(
            default_response_map(),
            key,
        ) is Some,
{
}

/// A read for an `EventBridgeEvent` with a detail type finds what a read for
/// `EventBridgeEvent(None)` finds, in any map.
pub proof fn lemma_detail_type_is_ignored_by_reads<V>(map: Map<EventKey, V>, detail: Seq<char>)
    ensures
        lookup(map, EventKey::EventBridgeEvent(Some(detail))) == lookup(
            map,
            EventKey::EventBridgeEvent(None),
        ),
{
}

/// Of two writes under one key the second stays: a read for that key finds
/// the second value. This holds of every key that reads use as it is, which
/// is every key but an `EventBridgeEvent` with a detail type.
pub proof fn lemma_last_write_wins<V>(map: Map<EventKey, V>, key: EventKey, first: V, second: V)
    requires
        lookup_key(key) == key,
    ensures
        lookup(map.insert(key, first).insert(key, second), key) == Some(second),
{
}

/// A write under an `EventBridgeEvent` with a detail type is not seen by
/// reads: a read for any `EventBridgeEvent` finds what it found before the
/// write.
pub proof fn lemma_write_with_detail_type_is_not_read<V>(
    map: Map<EventKey, V>,
    detail: Seq<char>,
    value: V,
    read: EventKey,
)
    requires
        read is EventBridgeEvent,
    ensures
        lookup(map.insert(EventKey::EventBridgeEvent(Some(detail)), value), read) == lookup(
            map,
            read,
        ),
{
}

/// A write under `key` changes no read but those that use `key` itself.
pub proof fn lemma_write_leaves_other_reads<V>(
    map: Map<EventKey, V>,
    key: EventKey,
    value: V,
    read: EventKey,
)
    requires
        lookup_key(read) != key,
    ensures
        lookup(map.insert(key, value), read) == lookup(map, read),
{
}

/// Two sorted lists with the same lines are the same list: what is sorted
/// and holds given lines is determined by them.
pub proof fn lemma_sorted_lines_are_determined(left: Seq<Seq<char>>, right: Seq<Seq<char>>)
    requires
        strictly_sorted(left),
        strictly_sorted(right),
        left.to_set() == right.to_set(),
    ensures
        left == right,
    decreases left.len(),
{
    if left.len() == 0 {
        if right.len() > 0 {
            assert(right.to_set().contains(right[0]));
            assert(left.contains(right[0]));
        }
        assert(left =~= right);
    } else if right.len() == 0 {
        assert(left.to_set().contains(left[0]));
        assert(right.contains(left[0]));
    } else {
        // The first line of each list is the least of the common lines.
        assert(left.to_set().contains(left[0]));
        assert(right.contains(left[0]));
        let i = choose|i: int| 0 <= i < right.len() && right[i] == left[0];
        assert(right.to_set().contains(right[0]));
        assert(left.contains(right[0]));
        let j = choose|j: int| 0 <= j < left.len() && left[j] == right[0];
        if i > 0 && j > 0 {
            assert(text_precedes(right[0], right[i]));
            assert(text_precedes(left[0], left[j]));
            crate::sorting::lemma_text_precedes_transitive(left[0], right[0], left[0]);
            lemma_text_precedes_irreflexive(left[0]);
        }
        if i > 0 && j == 0 {
            assert(text_precedes(right[0], right[i]));
            lemma_text_precedes_irreflexive(left[0]);
        }
        assert(left[0] == right[0]);
        let left_rest = left.subrange(1, left.len() as int);
        let right_rest = right.subrange(1, right.len() as int);
        assert forall|text: Seq<char>| left_rest.to_set().contains(text)
            <==> right_rest.to_set().contains(text) by {
            if left_rest.contains(text) {
                let a = choose|a: int| 0 <= a < left_rest.len() && left_rest[a] == text;
                assert(left[a + 1] == text);
                assert(text_precedes(left[0], left[a + 1]));
                assert(left.to_set().contains(text));
                assert(right.contains(text));
                let b = choose|b: int| 0 <= b < right.len() && right[b] == text;
                if b == 0 {
                    lemma_text_precedes_irreflexive(text);
                }
                assert(right_rest[b - 1] == text);
            }
            if right_rest.contains(text) {
                let a = choose|a: int| 0 <= a < right_rest.len() && right_rest[a] == text;
                assert(right[a + 1] == text);
                assert(text_precedes(right[0], right[a + 1]));
                assert(right.to_set().contains(text));
                assert(left.contains(text));
                let b = choose|b: int| 0 <= b < left.len() && left[b] == text;
                if b == 0 {
                    lemma_text_precedes_irreflexive(text);
                }
                assert(left_rest[b - 1] == text);
            }
        }
        assert(left_rest.to_set() =~= right_rest.to_set());
        assert forall|a: int, b: int| 0 <= a < b < left_rest.len() implies text_precedes(
            left_rest[a],
            left_rest[b],
        ) by {
            assert(text_precedes(left[a + 1], left[b + 1]));
        }
        assert forall|a: int, b: int| 0 <= a < b < right_rest.len() implies text_precedes(
            right_rest[a],
            right_rest[b],
        ) by {
            assert(text_precedes(right[a + 1], right[b + 1]));
        }
        lemma_sorted_lines_are_determined(left_rest, right_rest);
        assert(left =~= seq![left[0]] + left_rest);
        assert(right =~= seq![right[0]] + right_rest);
    }
}

} // verus!
