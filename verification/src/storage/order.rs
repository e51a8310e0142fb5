//! The order in which snippets are listed: newest first, and among snippets
//! created at the same instant, in the order in which they were found.

use super::file_ops::{models, Snippet, SnippetModel};
use vstd::prelude::*;

verus! {

/// No snippet stands before one that was created later.
pub open spec fn is_newest_first(list: Seq<SnippetModel>) -> bool {
    forall|i: int, j: int| 0 <= i < j < list.len() ==> list[i].created >= list[j].created
}

/// The snippets of `list` that were created at instant `at`, in list order.
pub open spec fn created_at(list: Seq<SnippetModel>, at: int) -> Seq<SnippetModel> {
    list.filter(|s: SnippetModel| s.created == at)
}

/// A newest-first list with `snippet` put in: it goes behind every snippet
/// that is at least as new.
pub open spec fn with_inserted(list: Seq<SnippetModel>, snippet: SnippetModel) -> Seq<SnippetModel>
    decreases list.len(),
{
    if list.len() > 0 && list.last().created < snippet.created {
        with_inserted(list.drop_last(), snippet).push(list.last())
    } else {
        list.push(snippet)
    }
}

/// The snippets of `list` arranged newest first, those created at the same
/// instant in the order they have in `list`.
pub open spec fn newest_first(list: Seq<SnippetModel>) -> Seq<SnippetModel>
    decreases list.len(),
{
    if list.len() == 0 {
        Seq::empty()
    } else {
        with_inserted(newest_first(list.drop_last()), list.last())
    }
}

/// Putting a snippet in is inserting it at the place `at` behind which every
/// snippet is older and before which none is.
pub proof fn lemma_with_inserted_at(list: Seq<SnippetModel>, snippet: SnippetModel, at: int)
    requires
        0 <= at <= list.len(),
        forall|j: int| at <= j < list.len() ==> list[j].created < snippet.created,
        at > 0 ==> list[at - 1].created >= snippet.created,
    ensures
        with_inserted(list, snippet) == list.insert(at, snippet),
    decreases list.len(),
{
    if at < list.len() {
        lemma_with_inserted_at(list.drop_last(), snippet, at);
    }
}

/// The place at which `with_inserted` puts a snippet into a newest-first
/// list: behind the last snippet that is at least as new.
pub open spec fn place_of(list: Seq<SnippetModel>, snippet: SnippetModel) -> int
    decreases list.len(),
{
    if list.len() > 0 && list.last().created < snippet.created {
        place_of(list.drop_last(), snippet)
    } else {
        list.len() as int
    }
}

/// `place_of` is the place that `lemma_with_inserted_at` asks for.
pub proof fn lemma_place_of(list: Seq<SnippetModel>, snippet: SnippetModel)
    ensures
        0 <= place_of(list, snippet) <= list.len(),
        forall|j: int|
            place_of(list, snippet) <= j < list.len() ==> list[j].created < snippet.created,
        place_of(list, snippet) > 0 ==> list[place_of(list, snippet) - 1].created
            >= snippet.created,
        with_inserted(list, snippet) == list.insert(place_of(list, snippet), snippet),
    decreases list.len(),
{
    let at = place_of(list, snippet);
    if list.len() > 0 && list.last().created < snippet.created {
        let earlier = list.drop_last();
        lemma_place_of(earlier, snippet);
        assert forall|j: int| at <= j < list.len() implies list[j].created
            < snippet.created by {
            if j < earlier.len() {
                assert(list[j] == earlier[j]);
            }
        }
    }
    lemma_with_inserted_at(list, snippet, at);
}

/// Putting a snippet into a newest-first list leaves it newest first.
pub proof fn lemma_with_inserted_is_newest_first(list: Seq<SnippetModel>, snippet: SnippetModel)
    requires
        is_newest_first(list),
    ensures
        is_newest_first(with_inserted(list, snippet)),
{
    lemma_place_of(list, snippet);
}

/// What `newest_first` returns is newest first.
pub proof fn lemma_newest_first_is_sorted(list: Seq<SnippetModel>)
    ensures
        is_newest_first(newest_first(list)),
    decreases list.len(),
{
    if list.len() > 0 {
        lemma_newest_first_is_sorted(list.drop_last());
        lemma_with_inserted_is_newest_first(newest_first(list.drop_last()), list.last());
    }
}

/// `newest_first` neither drops nor adds nor repeats a snippet.
pub proof fn lemma_newest_first_keeps_snippets(list: Seq<SnippetModel>)
    ensures
        newest_first(list).len() == list.len(),
        newest_first(list).to_multiset() == list.to_multiset(),
    decreases list.len(),
{
    broadcast use vstd::seq_lib::group_to_multiset_ensures;

    if list.len() > 0 {
        let earlier = list.drop_last();
        lemma_newest_first_keeps_snippets(earlier);
        let sorted = newest_first(earlier);
        lemma_place_of(sorted, list.last());
        let at = place_of(sorted, list.last());
        vstd::seq_lib::to_multiset_insert(sorted, at, list.last());
        assert(earlier.push(list.last()) == list);
    }
}

/// A list of one item, filtered, is that list or the empty one.
pub(crate) proof fn lemma_filter_one<A>(item: A, pred: spec_fn(A) -> bool)
    ensures
        seq![item].filter(pred) == if pred(item) {
            seq![item]
        } else {
            Seq::empty()
        },
{
    reveal_with_fuel(Seq::filter, 2);
    assert(seq![item].drop_last() =~= Seq::<A>::empty());
    assert(Seq::<A>::empty().push(item) =~= seq![item]);
}

/// Filtering a list into which a snippet was put gives what filtering the
/// part before its place, the snippet itself and the part behind its place
/// gives, in that order.
proof fn lemma_filter_with_inserted(
    list: Seq<SnippetModel>,
    snippet: SnippetModel,
    pred: spec_fn(SnippetModel) -> bool,
)
    ensures
        ({
            let place = place_of(list, snippet);
            let front = list.take(place).filter(pred);
            let back = list.skip(place).filter(pred);
            &&& list.filter(pred) == front + back
            &&& with_inserted(list, snippet).filter(pred) == front + seq![snippet].filter(pred)
                + back
        }),
{
    lemma_place_of(list, snippet);
    let place = place_of(list, snippet);
    let front = list.take(place);
    let back = list.skip(place);
    assert(list == front + back);
    assert(list.insert(place, snippet) =~= front + seq![snippet] + back);
    Seq::filter_distributes_over_add(front, back, pred);
    Seq::filter_distributes_over_add(front, seq![snippet], pred);
    Seq::filter_distributes_over_add(front + seq![snippet], back, pred);
}

/// Snippets created at the same instant keep the order they had.
pub proof fn lemma_newest_first_is_stable(list: Seq<SnippetModel>, at: int)
    ensures
        created_at(newest_first(list), at) == created_at(list, at),
    decreases list.len(),
{
    let pred = |s: SnippetModel| s.created == at;
    if list.len() > 0 {
        let earlier = list.drop_last();
        let last = list.last();
        let sorted = newest_first(earlier);
        lemma_newest_first_is_stable(earlier, at);
        lemma_filter_with_inserted(sorted, last, pred);
        lemma_filter_one(last, pred);
        assert(list == earlier + seq![last]);
        Seq::filter_distributes_over_add(earlier, seq![last], pred);
        if last.created == at {
            lemma_place_of(sorted, last);
            sorted.skip(place_of(sorted, last)).lemma_all_neg_filter_empty(pred);
        }
    }
}

/// Whatever is asked of the snippets, `newest_first` keeps those that meet
/// it: none is lost, none added, none repeated.
pub proof fn lemma_newest_first_keeps_filtered(
    list: Seq<SnippetModel>,
    pred: spec_fn(SnippetModel) -> bool,
)
    ensures
        newest_first(list).filter(pred).to_multiset() == list.filter(pred).to_multiset(),
    decreases list.len(),
{
    if list.len() > 0 {
        let earlier = list.drop_last();
        let last = list.last();
        let sorted = newest_first(earlier);
        lemma_newest_first_keeps_filtered(earlier, pred);
        lemma_filter_with_inserted(sorted, last, pred);
        assert(list == earlier + seq![last]);
        Seq::filter_distributes_over_add(earlier, seq![last], pred);
        let place = place_of(sorted, last);
        let front = sorted.take(place).filter(pred);
        let back = sorted.skip(place).filter(pred);
        let one = seq![last].filter(pred);
        vstd::seq_lib::lemma_multiset_commutative(front, back);
        vstd::seq_lib::lemma_multiset_commutative(front, one);
        vstd::seq_lib::lemma_multiset_commutative(front + one, back);
        vstd::seq_lib::lemma_multiset_commutative(earlier.filter(pred), one);
    } else {
        assert(newest_first(list) == list);
    }
}

/// A list that is newest first already is left as it is.
pub proof fn lemma_newest_first_keeps_sorted_list(list: Seq<SnippetModel>)
    requires
        is_newest_first(list),
    ensures
        newest_first(list) == list,
    decreases list.len(),
{
    if list.len() > 0 {
        let earlier = list.drop_last();
        lemma_newest_first_keeps_sorted_list(earlier);
        lemma_with_inserted_at(earlier, list.last(), earlier.len() as int);
    }
}

/// Every snippet of the list was created later than the one before it.
pub open spec fn is_oldest_first(list: Seq<SnippetModel>) -> bool {
    forall|i: int, j: int| 0 <= i < j < list.len() ==> list[i].created < list[j].created
}

/// Snippets that come in the order in which they were created, each later
/// than the one before, are listed in the opposite order.
pub proof fn lemma_newest_first_reverses_oldest_first(list: Seq<SnippetModel>)
    requires
        is_oldest_first(list),
    ensures
        newest_first(list) == list.reverse(),
    decreases list.len(),
{
    if list.len() > 0 {
        let earlier = list.drop_last();
        lemma_newest_first_reverses_oldest_first(earlier);
        lemma_with_inserted_at(earlier.reverse(), list.last(), 0);
        assert(earlier.reverse().insert(0, list.last()) =~= list.reverse());
    } else {
        assert(list.reverse() =~= Seq::empty());
    }
}

/// A list stays newest first when a snippet at least as new as its first is
/// put before it.
pub proof fn lemma_newer_snippet_goes_first(list: Seq<SnippetModel>, snippet: SnippetModel)
    requires
        is_newest_first(list),
        list.len() > 0 ==> snippet.created >= list[0].created,
    ensures
        is_newest_first(seq![snippet] + list),
{
    let grown = seq![snippet] + list;
    assert forall|i: int, j: int| 0 <= i < j < grown.len() implies grown[i].created
        >= grown[j].created by {
    }
}

/// Arranges `snippets` newest first, keeping snippets that were created at
/// the same instant in the order they came in.
pub fn sort_newest_first(snippets: Vec<Snippet>) -> (sorted: Vec<Snippet>)
    ensures
        models(sorted@) == newest_first(models(snippets@)),
        is_newest_first(models(sorted@)),
{
    let mut sorted: Vec<Snippet> = Vec::new();
    for snippet in it: snippets
        invariant
            it.seq() == snippets@,
            models(sorted@) == newest_first(models(snippets@.take(it.index() as int))),
    {
        let ghost seen = snippets@.take(it.index() as int);
        let mut at: usize = sorted.len();
        while at > 0 && sorted[at - 1].created < snippet.created
            invariant
                at <= sorted.len(),
                forall|j: int| at <= j < sorted.len() ==> sorted@[j].created < snippet.created,
            decreases at,
        {
            at -= 1;
        }
        proof {
            let list = models(sorted@);
            lemma_with_inserted_at(list, snippet@, at as int);
            let next = snippets@.take(it.index() + 1);
            assert(models(next).drop_last() =~= models(seen));
        }
        sorted.insert(at, snippet);
    }
    proof {
        assert(snippets@.take(snippets@.len() as int) == snippets@);
        lemma_newest_first_is_sorted(models(snippets@));
    }
    sorted
}

} // verus!
