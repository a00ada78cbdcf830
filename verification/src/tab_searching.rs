//! Fuzzy searching of the series shown in a tab.

use fuzzy_matcher::skim::SkimMatcherV2;
use fuzzy_matcher::FuzzyMatcher;
use vstd::prelude::*;

use crate::series_information::SeriesMainInformation;

verus! {

/// `c` with an ASCII capital letter turned into its small letter.
pub open spec fn ascii_lower(c: char) -> char {
    if 'A' <= c && c <= 'Z' {
        ((c as int) + 32) as char
    } else {
        c
    }
}

/// Whether two characters are the same, or differ only in ASCII case when
/// the comparison ignores case.
pub open spec fn chars_match(a: char, b: char, case_sensitive: bool) -> bool {
    if case_sensitive {
        a == b
    } else {
        ascii_lower(a) == ascii_lower(b)
    }
}

/// Whether `pattern` occurs in `choice` as a subsequence, its characters
/// taken in order, each matched to the first fitting character left.
pub open spec fn is_subsequence(choice: Seq<char>, pattern: Seq<char>, case_sensitive: bool) -> bool
    decreases choice.len(),
{
    if pattern.len() == 0 {
        true
    } else if choice.len() == 0 {
        false
    } else if chars_match(choice[0], pattern[0], case_sensitive) {
        is_subsequence(choice.drop_first(), pattern.drop_first(), case_sensitive)
    } else {
        is_subsequence(choice.drop_first(), pattern, case_sensitive)
    }
}

/// Whether a text holds an ASCII capital letter.
pub open spec fn has_ascii_capital(text: Seq<char>) -> bool {
    exists|i: int| 0 <= i < text.len() && 'A' <= #[trigger] text[i] && text[i] <= 'Z'
}

/// Whether the skim fuzzy matcher, with its default settings, matches
/// `pattern` against `choice`: an empty pattern always does; otherwise the
/// pattern must be a subsequence of the choice, compared with case when it
/// holds an ASCII capital and without ASCII case otherwise.
pub open spec fn fuzzy_found(choice: Seq<char>, pattern: Seq<char>) -> bool {
    pattern.len() == 0 || is_subsequence(choice, pattern, has_ascii_capital(pattern))
}

/// `SkimMatcherV2::fuzzy_match` with the default matcher (smart case, no
/// element limit): it finds a match exactly when the pattern is empty or
/// the first-fit scan of the choice (`cheap_matches`) takes every character
/// of the pattern in turn; after that scan the scoring always yields a score.
#[verifier::external_body]
fn fuzzy_matches(choice: &str, pattern: &str) -> (b: bool)
    ensures
        b == fuzzy_found(choice@, pattern@),
{
    SkimMatcherV2::default().fuzzy_match(choice, pattern).is_some()
}

/// The ids whose flag is set, in order.
pub open spec fn selected_ids(ids: Seq<u32>, found: Seq<bool>) -> Seq<u32>
    decreases ids.len(),
{
    if ids.len() == 0 || found.len() == 0 {
        Seq::empty()
    } else {
        selected_ids(ids.drop_last(), found.drop_last()) + (if found.last() {
            seq![ids.last()]
        } else {
            Seq::empty()
        })
    }
}

/// The ids of the series in `collection` whose name matches `term`, in order.
pub open spec fn matched_ids(term: Seq<char>, collection: Seq<&SeriesMainInformation>) -> Seq<u32>
    decreases collection.len(),
{
    if collection.len() == 0 {
        Seq::empty()
    } else {
        matched_ids(term, collection.drop_last()) + (if fuzzy_found(collection.last().name@, term) {
            seq![collection.last().id]
        } else {
            Seq::empty()
        })
    }
}

/// Keeps the ids whose match flag is set, in order.
pub fn select_matched_ids(ids: &[u32], found: &[bool]) -> (r: Vec<u32>)
    requires
        ids@.len() == found@.len(),
    ensures
        r@ == selected_ids(ids@, found@),
{
    let mut r: Vec<u32> = Vec::new();
    let mut i: usize = 0;
    while i < ids.len()
        invariant
            i <= ids@.len(),
            ids@.len() == found@.len(),
            r@ == selected_ids(ids@.take(i as int), found@.take(i as int)),
        decreases ids@.len() - i,
    {
        proof {
            assert(ids@.take(i + 1).drop_last() =~= ids@.take(i as int));
            assert(found@.take(i + 1).drop_last() =~= found@.take(i as int));
        }
        if found[i] {
            r.push(ids[i]);
        }
        i = i + 1;
    }
    proof {
        assert(ids@.take(ids@.len() as int) =~= ids@);
        assert(found@.take(found@.len() as int) =~= found@);
    }
    r
}

/// Checks if a series id is among the matched ids after a search.
pub fn is_matched_id(matched_ids: &[u32], id: u32) -> (b: bool)
    ensures
        b == matched_ids@.contains(id),
{
    let mut i: usize = 0;
    while i < matched_ids.len()
        invariant
            i <= matched_ids@.len(),
            forall|j: int| 0 <= j < i ==> matched_ids@[j] != id,
        decreases matched_ids@.len() - i,
    {
        if matched_ids[i] == id {
            return true;
        }
        i = i + 1;
    }
    false
}

/// The ids matched by a search, stated with the matcher: an id is matched
/// exactly when a series of the collection with that id has a name that
/// the matcher finds the term in, the term being the pattern and the name
/// the text searched; so no matched series has a name that lacks the
/// term's characters in order. The matched ids are those of the matching
/// series, each once per series and in the order of the collection.
pub proof fn lemma_matched_ids_members(term: Seq<char>, collection: Seq<&SeriesMainInformation>)
    ensures
        matched_ids(term, collection) == collection.filter(
            |s: &SeriesMainInformation| fuzzy_found(s.name@, term),
        ).map_values(|s: &SeriesMainInformation| s.id),
        forall|id: u32|
            #[trigger] matched_ids(term, collection).contains(id) <==> exists|i: int|
                0 <= i < collection.len() && collection[i].id == id && fuzzy_found(collection[i].name@, term),
        forall|id: u32|
            #[trigger] matched_ids(term, collection).contains(id) ==> exists|i: int|
                0 <= i < collection.len() && collection[i].id == id && (term.len() == 0 || is_subsequence(
                    collection[i].name@,
                    term,
                    has_ascii_capital(term),
                )),
        matched_ids(term, collection).len() <= collection.len(),
    decreases collection.len(),
{
    if collection.len() > 0 {
        let n = collection.len() - 1;
        let front = collection.drop_last();
        lemma_matched_ids_members(term, front);
        let before = matched_ids(term, front);
        let last = collection[n];
        let r = matched_ids(term, collection);
        let pred = |s: &SeriesMainInformation| fuzzy_found(s.name@, term);
        let id_of = |s: &SeriesMainInformation| s.id;
        assert(collection.filter(pred) == if pred(last) {
            front.filter(pred).push(last)
        } else {
            front.filter(pred)
        }) by {
            reveal(Seq::filter);
        }
        assert(r =~= collection.filter(pred).map_values(id_of));
        assert forall|id: u32| #[trigger] r.contains(id) <==> exists|i: int|
            0 <= i < collection.len() && collection[i].id == id && fuzzy_found(collection[i].name@, term) by {
            if r.contains(id) {
                let k = choose|k: int| 0 <= k < r.len() && r[k] == id;
                if k < before.len() {
                    assert(before[k] == id);
                    assert(before.contains(id));
                    let i = choose|i: int| 0 <= i < front.len() && front[i].id == id && fuzzy_found(front[i].name@, term);
                    assert(collection[i] == front[i]);
                } else {
                    assert(collection[n as int].id == id);
                }
            }
            if exists|i: int| 0 <= i < collection.len() && collection[i].id == id && fuzzy_found(collection[i].name@, term) {
                let i = choose|i: int| 0 <= i < collection.len() && collection[i].id == id && fuzzy_found(collection[i].name@, term);
                if i < n {
                    assert(front[i] == collection[i]);
                    assert(before.contains(id));
                    let k = choose|k: int| 0 <= k < before.len() && before[k] == id;
                    assert(r[k] == id);
                } else {
                    assert(r[before.len() as int] == id);
                }
            }
        }
    }
}

/// Searches the series of a tab for names matching the search term,
/// returning the ids of the matched ones.
pub fn search_for_matches(search_term: &str, search_collection: &[&SeriesMainInformation]) -> (r: Vec<u32>)
    ensures
        r@ == matched_ids(search_term@, search_collection@),
        forall|id: u32|
            #[trigger] r@.contains(id) <==> exists|i: int|
                0 <= i < search_collection@.len() && search_collection@[i].id == id && fuzzy_found(
                    search_collection@[i].name@,
                    search_term@,
                ),
{
    proof {
        lemma_matched_ids_members(search_term@, search_collection@);
    }
    let mut ids: Vec<u32> = Vec::new();
    let mut found: Vec<bool> = Vec::new();
    let mut i: usize = 0;
    while i < search_collection.len()
        invariant
            i <= search_collection@.len(),
            ids@.len() == i,
            found@.len() == i,
            selected_ids(ids@, found@) == matched_ids(search_term@, search_collection@.take(i as int)),
        decreases search_collection@.len() - i,
    {
        let series_info = search_collection[i];
        let matched = fuzzy_matches(series_info.name.as_str(), search_term);
        proof {
            assert(search_collection@.take(i + 1).drop_last() =~= search_collection@.take(i as int));
            assert(ids@.push(series_info.id).drop_last() =~= ids@);
            assert(found@.push(matched).drop_last() =~= found@);
        }
        ids.push(series_info.id);
        found.push(matched);
        i = i + 1;
    }
    proof {
        assert(search_collection@.take(search_collection@.len() as int) =~= search_collection@);
    }
    select_matched_ids(ids.as_slice(), found.as_slice())
}

/// Updates the matched series ids of a tab from the search term: `None` when
/// the term is empty, so that nothing is filtered out, else the ids of the
/// matching series.
pub fn update_matches(
    matches_id_collection: &mut Option<Vec<u32>>,
    search_term: &str,
    search_collection: &[&SeriesMainInformation],
)
    ensures
        search_term@.len() == 0 ==> *final(matches_id_collection) is None,
        search_term@.len() > 0 ==> (*final(matches_id_collection) matches Some(ids)
            && ids@ == matched_ids(search_term@, search_collection@)),
{
    let new_matches_ids = search_for_matches(search_term, search_collection);
    if search_term.unicode_len() == 0 {
        *matches_id_collection = None;
        return;
    }
    *matches_id_collection = Some(new_matches_ids);
}

/// Whether a series is shown in a tab after a search: every series when no
/// term was given, else only the matched ones.
pub fn is_shown(matches_id_collection: &Option<Vec<u32>>, id: u32) -> (b: bool)
    ensures
        matches_id_collection is None ==> b,
        matches_id_collection matches Some(ids) ==> b == ids@.contains(id),
{
    match matches_id_collection {
        Some(ids) => is_matched_id(ids.as_slice(), id),
        None => true,
    }
}

/// What the search bar of a tab reports.
#[derive(Debug, Clone)]
pub enum Message {
    SearchTermChanged(String),
}

/// The search bar of a tab: a placeholder text and the current search term.
#[derive(Debug)]
pub struct Searcher {
    placeholder: String,
    current_search_term: String,
}

impl Searcher {
    /// The placeholder shown while nothing has been typed.
    pub closed spec fn placeholder_text(&self) -> Seq<char> {
        self.placeholder@
    }

    /// The current search term.
    pub closed spec fn term(&self) -> Seq<char> {
        self.current_search_term@
    }

    pub fn new(placeholder: String) -> (s: Self)
        ensures
            s.placeholder_text() == placeholder@,
            s.term() == Seq::<char>::empty(),
    {
        Self { placeholder, current_search_term: String::new() }
    }

    pub fn current_search_term(&self) -> (t: &str)
        ensures
            t@ == self.term(),
    {
        self.current_search_term.as_str()
    }

    pub fn placeholder(&self) -> (t: &str)
        ensures
            t@ == self.placeholder_text(),
    {
        self.placeholder.as_str()
    }

    pub fn update(&mut self, message: Message)
        ensures
            final(self).placeholder_text() == old(self).placeholder_text(),
            message matches Message::SearchTermChanged(t) && final(self).term() == t@,
    {
        match message {
            Message::SearchTermChanged(new_search_term) => {
                self.current_search_term = new_search_term;
            },
        }
    }
}

} // verus!
