//! The filtered view of a list: which items stay under a filter text, and
//! in which order.

use crate::text::filter_keeps;
use vstd::prelude::*;

verus! {

/// The positions, in increasing order, of those among the first `n` texts
/// that stay under `filter`.
pub open spec fn matching(texts: Seq<Seq<char>>, filter: Seq<char>, n: nat) -> Seq<int>
    decreases n,
{
    if n == 0 {
        seq![]
    } else {
        let before = matching(texts, filter, (n - 1) as nat);
        if filter_keeps(filter, texts[n - 1]) {
            before.push(n - 1)
        } else {
            before
        }
    }
}

/// The positions of all the texts that stay under `filter`.
pub open spec fn matching_all(texts: Seq<Seq<char>>, filter: Seq<char>) -> Seq<int> {
    matching(texts, filter, texts.len())
}

/// Positions held as machine integers.
pub open spec fn positions(held: Seq<usize>) -> Seq<int> {
    held.map_values(|i: usize| i as int)
}

/// A position held as a machine integer, or none.
pub open spec fn position(held: Option<usize>) -> Option<int> {
    match held {
        Some(i) => Some(i as int),
        None => None,
    }
}

/// The filtered view names only positions of the list, each of a text that
/// stays under the filter, and names them in increasing order: it is a
/// subsequence of the list, in the list's order.
pub proof fn lemma_matching_is_ordered_selection(texts: Seq<Seq<char>>, filter: Seq<char>, n: nat)
    requires
        n <= texts.len(),
    ensures
        matching(texts, filter, n).len() <= n,
        forall|k: int|
            0 <= k < matching(texts, filter, n).len() ==> 0 <= #[trigger] matching(
                texts,
                filter,
                n,
            )[k] < n,
        forall|k: int|
            0 <= k < matching(texts, filter, n).len() ==> filter_keeps(
                filter,
                texts[#[trigger] matching(texts, filter, n)[k]],
            ),
        forall|j: int, k: int|
            0 <= j < k < matching(texts, filter, n).len() ==> #[trigger] matching(
                texts,
                filter,
                n,
            )[j] < #[trigger] matching(texts, filter, n)[k],
    decreases n,
{
    if n > 0 {
        lemma_matching_is_ordered_selection(texts, filter, (n - 1) as nat);
    }
}

/// The filtered view leaves out no text that stays under the filter.
pub proof fn lemma_matching_is_complete(texts: Seq<Seq<char>>, filter: Seq<char>, n: nat, i: int)
    requires
        0 <= i < n <= texts.len(),
        filter_keeps(filter, texts[i]),
    ensures
        matching(texts, filter, n).contains(i),
    decreases n,
{
    let before = matching(texts, filter, (n - 1) as nat);
    if i == n - 1 {
        assert(before.push(i)[before.len() as int] == i);
    } else {
        lemma_matching_is_complete(texts, filter, (n - 1) as nat, i);
        let k = choose|k: int| 0 <= k < before.len() && before[k] == i;
        assert(matching(texts, filter, n)[k] == i);
    }
}

/// Under the empty filter the filtered view is the whole list.
pub proof fn lemma_empty_filter_keeps_all(texts: Seq<Seq<char>>, filter: Seq<char>, n: nat)
    requires
        filter.len() == 0,
    ensures
        matching(texts, filter, n) == Seq::new(n, |i: int| i),
    decreases n,
{
    if n > 0 {
        lemma_empty_filter_keeps_all(texts, filter, (n - 1) as nat);
    }
}

} // verus!
