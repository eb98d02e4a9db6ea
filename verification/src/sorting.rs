//! The order of import lines, and lists of lines kept in that order with no
//! line twice.
//!
//! Lines are ordered as strings are: byte by byte over their UTF-8 encoding,
//! a proper prefix before the longer line.

use crate::mapping::texts;
use vstd::prelude::*;
use vstd::string::StringSliceAdditionalSpecFns;
use vstd::utf8::{decode_utf8, encode_utf8, encode_utf8_decode_utf8};

verus! {

/// `left` and `right` have the same bytes at every place before `upto`.
pub open spec fn agree_before(left: Seq<u8>, right: Seq<u8>, upto: int) -> bool {
    forall|i: int| 0 <= i < upto ==> left[i] == right[i]
}

/// Place `at` decides that `left` comes before `right`: the two agree before
/// it, and there `left` has ended or has the smaller byte.
pub open spec fn precedes_at(left: Seq<u8>, right: Seq<u8>, at: int) -> bool {
    &&& 0 <= at <= left.len()
    &&& at < right.len()
    &&& agree_before(left, right, at)
    &&& (at == left.len() || left[at] < right[at])
}

/// `left` comes before `right` in the lexicographic order of bytes.
pub open spec fn bytes_precede(left: Seq<u8>, right: Seq<u8>) -> bool {
    exists|at: int| precedes_at(left, right, at)
}

/// The line `left` comes before the line `right`.
pub open spec fn text_precedes(left: Seq<char>, right: Seq<char>) -> bool {
    bytes_precede(encode_utf8(left), encode_utf8(right))
}

/// Every line of `lines` comes before each line after it: the lines are in
/// ascending order and no line occurs twice.
pub open spec fn strictly_sorted(lines: Seq<Seq<char>>) -> bool {
    forall|i: int, j: int| 0 <= i < j < lines.len() ==> text_precedes(lines[i], lines[j])
}

/// The order of bytes is transitive.
pub proof fn lemma_bytes_precede_transitive(left: Seq<u8>, middle: Seq<u8>, right: Seq<u8>)
    requires
        bytes_precede(left, middle),
        bytes_precede(middle, right),
    ensures
        bytes_precede(left, right),
{
    let first = choose|at: int| precedes_at(left, middle, at);
    let second = choose|at: int| precedes_at(middle, right, at);
    let at = if first <= second {
        first
    } else {
        second
    };
    assert(precedes_at(left, right, at));
}

/// No line comes before itself.
pub proof fn lemma_text_precedes_irreflexive(line: Seq<char>)
    ensures
        !text_precedes(line, line),
{
}

/// The order of lines is transitive.
pub proof fn lemma_text_precedes_transitive(left: Seq<char>, middle: Seq<char>, right: Seq<char>)
    requires
        text_precedes(left, middle),
        text_precedes(middle, right),
    ensures
        text_precedes(left, right),
{
    lemma_bytes_precede_transitive(encode_utf8(left), encode_utf8(middle), encode_utf8(right));
}

/// How two lines stand to each other.
#[derive(Debug, Clone, Copy, PartialEq, Eq, Structural)]
pub enum TextOrder {
    Before,
    Same,
    After,
}

/// Tells whether `left` comes before `right`, is the same line, or comes
/// after it.
pub fn text_order(left: &str, right: &str) -> (order: TextOrder)
    ensures
        match order {
            TextOrder::Before => text_precedes(left@, right@),
            TextOrder::Same => left@ == right@,
            TextOrder::After => text_precedes(right@, left@),
        },
{
    let left_bytes = left.as_bytes();
    let right_bytes = right.as_bytes();
    let mut at: usize = 0;
    while at < left_bytes.len() && at < right_bytes.len()
        invariant
            at <= left_bytes.len(),
            at <= right_bytes.len(),
            left_bytes@ == encode_utf8(left@),
            right_bytes@ == encode_utf8(right@),
            agree_before(left_bytes@, right_bytes@, at as int),
        decreases left_bytes.len() - at,
    {
        if left_bytes[at] < right_bytes[at] {
            assert(precedes_at(left_bytes@, right_bytes@, at as int));
            return TextOrder::Before;
        }
        if left_bytes[at] > right_bytes[at] {
            assert(precedes_at(right_bytes@, left_bytes@, at as int));
            return TextOrder::After;
        }
        at += 1;
    }
    if at < right_bytes.len() {
        assert(precedes_at(left_bytes@, right_bytes@, at as int));
        TextOrder::Before
    } else if at < left_bytes.len() {
        assert(precedes_at(right_bytes@, left_bytes@, at as int));
        TextOrder::After
    } else {
        proof {
            assert(left_bytes@ =~= right_bytes@);
            encode_utf8_decode_utf8(left@);
            encode_utf8_decode_utf8(right@);
            assert(left@ == decode_utf8(encode_utf8(left@)));
        }
        TextOrder::Same
    }
}

/// Puts `line` into the sorted list `lines` at its place, unless the list
/// holds it already.
pub(crate) fn insert_line(lines: &mut Vec<String>, line: String)
    requires
        strictly_sorted(texts(old(lines)@)),
    ensures
        strictly_sorted(texts(final(lines)@)),
        texts(final(lines)@).to_set() == texts(old(lines)@).to_set().insert(line@),
{
    let ghost before = texts(lines@);
    let mut at: usize = 0;
    while at < lines.len()
        invariant
            at <= lines.len(),
            *lines == *old(lines),
            before == texts(lines@),
            strictly_sorted(before),
            forall|i: int| 0 <= i < at ==> text_precedes(#[trigger] before[i], line@),
        decreases lines.len() - at,
    {
        match text_order(lines[at].as_str(), line.as_str()) {
            TextOrder::Before => {
                at += 1;
            },
            TextOrder::Same => {
                proof {
                    assert(before[at as int] == line@);
                    assert(before.to_set().insert(line@) =~= before.to_set());
                }
                return;
            },
            TextOrder::After => {
                proof {
                    lemma_insert_keeps_sorted(before, at as int, line@);
                    assert(texts(lines@.insert(at as int, line)) =~= before.insert(
                        at as int,
                        line@,
                    ));
                }
                lines.insert(at, line);
                return;
            },
        }
    }
    proof {
        lemma_insert_keeps_sorted(before, at as int, line@);
        assert(before.insert(at as int, line@) =~= before.push(line@));
        assert(texts(lines@.push(line)) =~= before.push(line@));
    }
    lines.push(line);
}

/// A line put between the lines before it and the lines after it keeps the
/// list sorted, and adds itself to the lines of the list.
pub proof fn lemma_insert_keeps_sorted(lines: Seq<Seq<char>>, at: int, line: Seq<char>)
    requires
        strictly_sorted(lines),
        0 <= at <= lines.len(),
        forall|i: int| 0 <= i < at ==> text_precedes(#[trigger] lines[i], line),
        at < lines.len() ==> text_precedes(line, lines[at]),
    ensures
        strictly_sorted(lines.insert(at, line)),
        lines.insert(at, line).to_set() == lines.to_set().insert(line),
{
    let grown = lines.insert(at, line);
    assert forall|j: int| at <= j < lines.len() implies text_precedes(line, #[trigger] lines[j]) by {
        if at < j {
            lemma_text_precedes_transitive(line, lines[at], lines[j]);
        }
    }
    assert forall|i: int, j: int| 0 <= i < j < grown.len() implies text_precedes(
        grown[i],
        grown[j],
    ) by {
        let from = if i < at {
            i
        } else {
            i - 1
        };
        let to = if j < at {
            j
        } else {
            j - 1
        };
        if i == at {
            assert(grown[j] == lines[to]);
        } else if j == at {
            assert(grown[i] == lines[from]);
        } else {
            assert(grown[i] == lines[from]);
            assert(grown[j] == lines[to]);
        }
    }
    assert forall|text: Seq<char>| grown.to_set().contains(text) <==> lines.to_set().insert(
        line,
    ).contains(text) by {
        if grown.contains(text) {
            let i = choose|i: int| 0 <= i < grown.len() && grown[i] == text;
            if i < at {
                assert(lines[i] == text);
            } else if i > at {
                assert(lines[i - 1] == text);
            }
        }
        if lines.contains(text) {
            let i = choose|i: int| 0 <= i < lines.len() && lines[i] == text;
            if i < at {
                assert(grown[i] == text);
            } else {
                assert(grown[i + 1] == text);
            }
        }
        if text == line {
            assert(grown[at] == text);
        }
    }
    assert(grown.to_set() =~= lines.to_set().insert(line));
}

/// Puts each line of `more` into the sorted list `lines`.
pub(crate) fn insert_lines(lines: &mut Vec<String>, more: &Vec<String>)
    requires
        strictly_sorted(texts(old(lines)@)),
    ensures
        strictly_sorted(texts(final(lines)@)),
        texts(final(lines)@).to_set() == texts(old(lines)@).to_set().union(
            texts(more@).to_set(),
        ),
{
    let ghost before = texts(lines@);
    let mut at: usize = 0;
    while at < more.len()
        invariant
            at <= more.len(),
            strictly_sorted(texts(lines@)),
            texts(lines@).to_set() == before.to_set().union(
                texts(more@).subrange(0, at as int).to_set(),
            ),
        decreases more.len() - at,
    {
        let ghost done = texts(more@).subrange(0, at as int);
        let ghost next = texts(more@).subrange(0, at + 1);
        proof {
            assert(next =~= done.push(more[at as int]@));
            assert forall|text: Seq<char>| next.to_set().contains(text) <==> done.to_set().insert(
                more[at as int]@,
            ).contains(text) by {
                if done.contains(text) {
                    let i = choose|i: int| 0 <= i < done.len() && done[i] == text;
                    assert(next[i] == text);
                }
                if text == more[at as int]@ {
                    assert(next[at as int] == text);
                }
            }
            assert(next.to_set() =~= done.to_set().insert(more[at as int]@));
        }
        insert_line(lines, more[at].clone());
        proof {
            assert(texts(lines@).to_set() =~= before.to_set().union(next.to_set()));
        }
        at += 1;
    }
    proof {
        assert(texts(more@).subrange(0, at as int) =~= texts(more@));
    }
}

} // verus!
