//! The mathematical model of a fallible result.

use vstd::prelude::*;
use vstd::string::*;

verus! {

/// The model of a `Result`: the model of whichever value it holds.
pub open spec fn result_model<T: DeepView, E: DeepView>(result: Result<T, E>) -> Result<T::V, E::V> {
    match result {
        Ok(value) => Ok(value.deep_view()),
        Err(error) => Err(error.deep_view()),
    }
}

/// The first position at or after `from` whose item satisfies `wanted`.
pub open spec fn first_from<T>(items: Seq<T>, wanted: spec_fn(T) -> bool, from: int) -> Option<int>
    decreases items.len() - from,
{
    if from < 0 || from >= items.len() {
        None
    } else if wanted(items[from]) {
        Some(from)
    } else {
        first_from(items, wanted, from + 1)
    }
}

/// The first position whose item satisfies `wanted`.
pub open spec fn first<T>(items: Seq<T>, wanted: spec_fn(T) -> bool) -> Option<int> {
    first_from(items, wanted, 0)
}

/// A position found by [`first_from`] lies in the sequence, its item
/// satisfies the predicate, and no item between `from` and it does.
pub proof fn first_from_found<T>(items: Seq<T>, wanted: spec_fn(T) -> bool, from: int)
    requires
        0 <= from,
    ensures
        match first_from(items, wanted, from) {
            Some(at) => from <= at < items.len() && wanted(items[at]) && forall|k: int|
                from <= k < at ==> !wanted(#[trigger] items[k]),
            None => forall|k: int| from <= k < items.len() ==> !wanted(#[trigger] items[k]),
        },
    decreases items.len() - from,
{
    if from < items.len() && !wanted(items[from]) {
        first_from_found(items, wanted, from + 1);
    }
}

/// The first item of a sequence with one more item at its end: the first
/// item of the sequence before where there is one, else the new item where
/// it satisfies the predicate.
pub proof fn first_push<T>(items: Seq<T>, wanted: spec_fn(T) -> bool, item: T)
    ensures
        first(items.push(item), wanted) == (match first(items, wanted) {
            Some(at) => Some(at),
            None => if wanted(item) {
                Some(items.len() as int)
            } else {
                None
            },
        }),
{
    first_from_push(items, wanted, item, 0);
}

/// [`first_push`] from a position on.
pub proof fn first_from_push<T>(items: Seq<T>, wanted: spec_fn(T) -> bool, item: T, from: int)
    requires
        0 <= from <= items.len(),
    ensures
        first_from(items.push(item), wanted, from) == (match first_from(items, wanted, from) {
            Some(at) => Some(at),
            None => if wanted(item) {
                Some(items.len() as int)
            } else {
                None
            },
        }),
    decreases items.len() - from,
{
    let longer = items.push(item);
    if from < items.len() {
        assert(longer[from] == items[from]);
        if !wanted(items[from]) {
            first_from_push(items, wanted, item, from + 1);
        }
    } else {
        assert(longer[from] == item);
        assert(first_from(longer, wanted, from + 1) is None);
    }
}

/// Whether no item of the sequence satisfies the predicate.
pub proof fn first_is_none<T>(items: Seq<T>, wanted: spec_fn(T) -> bool)
    ensures
        first(items, wanted) is None <==> forall|k: int|
            0 <= k < items.len() ==> !wanted(#[trigger] items[k]),
{
    first_from_found(items, wanted, 0);
    if first(items, wanted) is Some {
        let at = first(items, wanted)->0;
        assert(wanted(items[at]));
    }
}

/// The parts in order, with `separator` between each two neighbours.
pub open spec fn join(parts: Seq<Seq<char>>, separator: Seq<char>) -> Seq<char>
    decreases parts.len(),
{
    if parts.len() == 0 {
        Seq::empty()
    } else if parts.len() == 1 {
        parts[0]
    } else {
        join(parts.drop_last(), separator) + separator + parts.last()
    }
}

/// The parts in order, one after the other.
pub open spec fn concat(parts: Seq<Seq<char>>) -> Seq<char>
    decreases parts.len(),
{
    if parts.len() == 0 {
        Seq::empty()
    } else {
        concat(parts.drop_last()) + parts.last()
    }
}

/// Four spaces for each level of indentation.
pub open spec fn indentation(depth: nat) -> Seq<char>
    decreases depth,
{
    if depth == 0 {
        Seq::empty()
    } else {
        indentation((depth - 1) as nat) + "    "@
    }
}

/// Appends the indentation of `depth` levels to `text`.
pub fn push_indentation(text: &mut String, depth: usize)
    ensures
        final(text)@ == old(text)@ + indentation(depth as nat),
{
    let mut level: usize = 0;
    assert(text@ =~= old(text)@ + indentation(0));
    while level < depth
        invariant
            level <= depth,
            text@ == old(text)@ + indentation(level as nat),
        decreases depth - level,
    {
        text.append("    ");
        level += 1;
        assert(text@ =~= old(text)@ + indentation(level as nat));
    }
}

/// One more part joined: the separator comes before every part but the
/// first.
pub proof fn join_push(parts: Seq<Seq<char>>, separator: Seq<char>, part: Seq<char>)
    ensures
        join(parts.push(part), separator) == if parts.len() == 0 {
            part
        } else {
            join(parts, separator) + separator + part
        },
{
    assert(parts.push(part).drop_last() =~= parts);
}

/// One more part concatenated.
pub proof fn concat_push(parts: Seq<Seq<char>>, part: Seq<char>)
    ensures
        concat(parts.push(part)) == concat(parts) + part,
{
    assert(parts.push(part).drop_last() =~= parts);
}

} // verus!
