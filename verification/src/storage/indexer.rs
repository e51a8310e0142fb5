//! Case-insensitive substring search over a list of snippets.

use super::file_ops::Snippet;
use crate::text::{contains, is_substring, lowercase};
use vstd::prelude::*;

verus! {

/// Whether a snippet with text `content` is a hit for `query`: every snippet
/// is a hit for the empty query, and otherwise the lowercased query must occur
/// in the lowercased content.
pub open spec fn matches_query(query: Seq<char>, content: Seq<char>) -> bool {
    query.len() == 0 || is_substring(lowercase(query), lowercase(content))
}

/// The positions in `snippets` of the hits for `query`, in ascending order.
pub open spec fn search_results(query: Seq<char>, snippets: Seq<Snippet>) -> Seq<usize>
    decreases snippets.len(),
{
    if snippets.len() == 0 {
        Seq::empty()
    } else {
        let earlier = search_results(query, snippets.drop_last());
        if matches_query(query, snippets.last().content@) {
            earlier.push((snippets.len() - 1) as usize)
        } else {
            earlier
        }
    }
}

/// The positions in `texts` of the texts in which `needle` occurs, in
/// ascending order.
pub open spec fn positions_containing(needle: Seq<char>, texts: Seq<Seq<char>>) -> Seq<usize>
    decreases texts.len(),
{
    if texts.len() == 0 {
        Seq::empty()
    } else {
        let earlier = positions_containing(needle, texts.drop_last());
        if is_substring(needle, texts.last()) {
            earlier.push((texts.len() - 1) as usize)
        } else {
            earlier
        }
    }
}

/// The lowercase forms of the texts of `snippets`, in the same order.
pub open spec fn lowercase_contents(snippets: Seq<Snippet>) -> Seq<Seq<char>> {
    snippets.map_values(|s: Snippet| lowercase(s.content@))
}

/// The texts held by a list of strings.
pub open spec fn texts_of(strings: Seq<String>) -> Seq<Seq<char>> {
    strings.map_values(|s: String| s@)
}

/// A search with a query that is not empty is a search for the lowercase
/// query among the lowercase texts.
pub proof fn lemma_search_is_containment_in_lowercase(query: Seq<char>, snippets: Seq<Snippet>)
    requires
        query.len() > 0,
    ensures
        search_results(query, snippets) == positions_containing(
            lowercase(query),
            lowercase_contents(snippets),
        ),
    decreases snippets.len(),
{
    if snippets.len() > 0 {
        lemma_search_is_containment_in_lowercase(query, snippets.drop_last());
        assert(lowercase_contents(snippets).drop_last() =~= lowercase_contents(
            snippets.drop_last(),
        ));
    }
}

/// The positions `0` to `count - 1` in ascending order.
pub open spec fn all_positions(count: nat) -> Seq<usize> {
    Seq::new(count, |i: int| i as usize)
}

/// The hits are positions of `snippets`, each stands for a snippet that
/// matches, every snippet that matches is among them, and they ascend.
pub proof fn lemma_search_results_are_the_hits(query: Seq<char>, snippets: Seq<Snippet>)
    requires
        snippets.len() <= usize::MAX,
    ensures
        forall|k: int|
            0 <= k < search_results(query, snippets).len() ==> {
                let hit = #[trigger] search_results(query, snippets)[k];
                hit < snippets.len() && matches_query(query, snippets[hit as int].content@)
            },
        forall|i: int|
            0 <= i < snippets.len() && matches_query(query, (#[trigger] snippets[i]).content@)
                ==> search_results(query, snippets).contains(i as usize),
        forall|a: int, b: int|
            0 <= a < b < search_results(query, snippets).len() ==> search_results(
                query,
                snippets,
            )[a] < search_results(query, snippets)[b],
    decreases snippets.len(),
{
    let hits = search_results(query, snippets);
    if snippets.len() > 0 {
        let earlier = snippets.drop_last();
        let before = search_results(query, earlier);
        let last = (snippets.len() - 1) as usize;
        lemma_search_results_are_the_hits(query, earlier);
        assert forall|i: int|
            0 <= i < snippets.len() && matches_query(
                query,
                (#[trigger] snippets[i]).content@,
            ) implies hits.contains(i as usize) by {
            if i < earlier.len() {
                assert(snippets[i] == earlier[i]);
                let k = choose|k: int| 0 <= k < before.len() && before[k] == i as usize;
                assert(hits[k] == i as usize);
            } else {
                assert(hits[hits.len() - 1] == last);
            }
        }
    }
}

/// The empty query finds every snippet, in list order.
pub proof fn lemma_empty_query_finds_all(snippets: Seq<Snippet>)
    ensures
        search_results(Seq::empty(), snippets) == all_positions(snippets.len()),
    decreases snippets.len(),
{
    if snippets.len() > 0 {
        lemma_empty_query_finds_all(snippets.drop_last());
    }
}

/// The search ignores case: two queries with the same lowercase form find
/// the same snippets, and so does one query in two lists whose texts have the
/// same lowercase forms.
pub proof fn lemma_search_ignores_case(
    query: Seq<char>,
    other_query: Seq<char>,
    snippets: Seq<Snippet>,
    other_snippets: Seq<Snippet>,
)
    requires
        query.len() > 0,
        other_query.len() > 0,
        lowercase(query) == lowercase(other_query),
        snippets.len() == other_snippets.len(),
        forall|i: int|
            0 <= i < snippets.len() ==> lowercase(snippets[i].content@) == lowercase(
                other_snippets[i].content@,
            ),
    ensures
        search_results(query, snippets) == search_results(other_query, other_snippets),
    decreases snippets.len(),
{
    if snippets.len() > 0 {
        lemma_search_ignores_case(
            query,
            other_query,
            snippets.drop_last(),
            other_snippets.drop_last(),
        );
    }
}

/// A stateless search over whatever list it is handed.
#[derive(Debug, Clone, Copy)]
pub struct SearchIndex {}

impl Default for SearchIndex {
    /// The same as `new`.
    fn default() -> (index: Self) {
        SearchIndex {}
    }
}

impl SearchIndex {
    /// A search index. It holds nothing: every search reads the list it is
    /// handed.
    pub fn new() -> (index: Self) {
        SearchIndex {}
    }

    /// The positions of the snippets whose content contains `query`,
    /// ignoring case, in the order of `snippets`.
    pub fn search(&self, query: &str, snippets: &[Snippet]) -> (hits: Vec<usize>)
        ensures
            hits@ == search_results(query@, snippets@),
            query@.len() == 0 ==> hits@ == all_positions(snippets@.len()),
            forall|k: int|
                0 <= k < hits@.len() ==> {
                    let hit = #[trigger] hits@[k];
                    hit < snippets@.len() && matches_query(query@, snippets@[hit as int].content@)
                },
            forall|i: int|
                0 <= i < snippets@.len() && matches_query(
                    query@,
                    (#[trigger] snippets@[i]).content@,
                ) ==> hits@.contains(i as usize),
            forall|a: int, b: int| 0 <= a < b < hits@.len() ==> hits@[a] < hits@[b],
    {
        let count: usize = snippets.len();
        proof {
            lemma_search_results_are_the_hits(query@, snippets@);
        }
        if query.is_empty() {
            let mut hits: Vec<usize> = Vec::new();
            let mut idx: usize = 0;
            while idx < count
                invariant
                    idx <= count,
                    hits@ == all_positions(idx as nat),
                decreases count - idx,
            {
                hits.push(idx);
                idx += 1;
            }
            proof {
                assert(query@ =~= Seq::<char>::empty());
                lemma_empty_query_finds_all(snippets@);
            }
            hits
        } else {
            let query_lower = query.to_lowercase();
            let mut lowered: Vec<String> = Vec::new();
            let mut idx: usize = 0;
            while idx < count
                invariant
                    count == snippets.len(),
                    idx <= count,
                    texts_of(lowered@) == lowercase_contents(snippets@.take(idx as int)),
                decreases count - idx,
            {
                let content_lower = snippets[idx].content.to_lowercase();
                lowered.push(content_lower);
                idx += 1;
                assert(lowercase_contents(snippets@.take(idx as int)) =~= lowercase_contents(
                    snippets@.take(idx - 1),
                ).push(lowercase(snippets@[idx - 1].content@)));
            }
            proof {
                assert(snippets@.take(count as int) == snippets@);
                lemma_search_is_containment_in_lowercase(query@, snippets@);
            }
            find_containing(query_lower.as_str(), &lowered)
        }
    }
}

/// The positions of the texts in which `needle` occurs as it stands, case
/// and all, in the order of `texts`.
pub fn find_containing(needle: &str, texts: &Vec<String>) -> (hits: Vec<usize>)
    ensures
        hits@ == positions_containing(needle@, texts_of(texts@)),
{
    let mut hits: Vec<usize> = Vec::new();
    let mut idx: usize = 0;
    while idx < texts.len()
        invariant
            idx <= texts.len(),
            hits@ == positions_containing(needle@, texts_of(texts@.take(idx as int))),
        decreases texts.len() - idx,
    {
        let found = contains(texts[idx].as_str(), needle);
        proof {
            let seen = texts_of(texts@.take(idx + 1));
            assert(seen.drop_last() =~= texts_of(texts@.take(idx as int)));
        }
        if found {
            hits.push(idx);
        }
        idx += 1;
    }
    assert(texts@.take(idx as int) == texts@);
    hits
}

} // verus!
