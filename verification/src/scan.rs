//! The part of a sequence that comes before the first occurrence of a mark:
//! the text before a terminator, the messages before a quit signal.

use vstd::prelude::*;

verus! {

/// The index of the first `mark` in `items` at or after `from`, or the length
/// of `items` when there is none.
pub open spec fn first_index<T>(items: Seq<T>, mark: T, from: int) -> int
    decreases items.len() - from,
{
    if from < 0 || from >= items.len() || items[from] == mark {
        from
    } else {
        first_index(items, mark, from + 1)
    }
}

/// The items before the first `mark`; all of them when there is no `mark`.
pub open spec fn before_first<T>(items: Seq<T>, mark: T) -> Seq<T> {
    items.take(first_index(items, mark, 0))
}

/// Holds when no item is `mark`.
pub open spec fn free_of<T>(items: Seq<T>, mark: T) -> bool {
    forall|i: int| 0 <= i < items.len() ==> items[i] != mark
}

/// `first_index` lies in the sequence or at its end, no `mark` lies between
/// `from` and it, and a `mark` or the end of the sequence is there.
pub proof fn lemma_first_index<T>(items: Seq<T>, mark: T, from: int)
    requires
        0 <= from <= items.len(),
    ensures
        from <= first_index(items, mark, from) <= items.len(),
        forall|i: int| from <= i < first_index(items, mark, from) ==> items[i] != mark,
        first_index(items, mark, from) < items.len() ==> items[first_index(items, mark, from)]
            == mark,
    decreases items.len() - from,
{
    if from < items.len() && items[from] != mark {
        lemma_first_index(items, mark, from + 1);
    }
}

/// Any index with these three properties is `first_index`.
pub proof fn lemma_first_index_unique<T>(items: Seq<T>, mark: T, from: int, end: int)
    requires
        0 <= from <= end <= items.len(),
        forall|i: int| from <= i < end ==> items[i] != mark,
        end < items.len() ==> items[end] == mark,
    ensures
        first_index(items, mark, from) == end,
    decreases end - from,
{
    if from < end {
        lemma_first_index_unique(items, mark, from + 1, end);
    }
}

/// What comes before the first `mark` is a prefix that holds no `mark`, and
/// what follows it in the sequence, if anything, is a `mark`.
pub proof fn lemma_before_first<T>(items: Seq<T>, mark: T)
    ensures
        before_first(items, mark).len() <= items.len(),
        before_first(items, mark) == items.take(before_first(items, mark).len() as int),
        free_of(before_first(items, mark), mark),
        before_first(items, mark).len() < items.len() ==> items[before_first(
            items,
            mark,
        ).len() as int] == mark,
{
    lemma_first_index(items, mark, 0);
}

/// Nothing that follows a `mark` matters: a sequence cut behind a `mark` has
/// the same items before its first `mark` as the whole.
pub proof fn lemma_before_first_ignores_rest<T>(head: Seq<T>, mark: T, rest: Seq<T>)
    ensures
        before_first(head.push(mark) + rest, mark) == before_first(head, mark),
        before_first(head.push(mark), mark) == before_first(head, mark),
        before_first(head.push(mark) + rest, mark).len() < (head.push(mark) + rest).len(),
{
    let cut = head.push(mark);
    let whole = cut + rest;
    let end = first_index(head, mark, 0);
    lemma_first_index(head, mark, 0);
    assert(end < head.len() ==> cut[end] == mark && whole[end] == mark);
    assert(end == head.len() ==> cut[end] == mark && whole[end] == mark);
    assert forall|i: int| 0 <= i < end implies cut[i] != mark && whole[i] != mark by {
        assert(cut[i] == head[i]);
        assert(whole[i] == head[i]);
    }
    lemma_first_index_unique(cut, mark, 0, end);
    lemma_first_index_unique(whole, mark, 0, end);
    assert(cut.take(end) =~= head.take(end));
    assert(whole.take(end) =~= head.take(end));
}

} // verus!
