//! The search bar of the discover tab: a search runs when the user submits
//! a new term, and its results float over the page until the user looks
//! away.

use vstd::prelude::*;

use crate::series_information::{duplicate_option, same_information, str_eq, SeriesMainInformation};

verus! {

/// Whether the results are shown.
#[derive(Debug, Clone, Copy, PartialEq, Eq, Structural)]
pub enum LoadState {
    Loaded,
    Loading,
    NotLoaded,
}

impl Default for LoadState {
    fn default() -> (s: Self)
        ensures
            s == LoadState::NotLoaded,
    {
        LoadState::NotLoaded
    }
}

#[derive(Debug)]
pub enum SearchResultMessage {
    /// The image of the result arrived, or could not be loaded.
    ImageLoaded(Option<Vec<u8>>),
    SeriesResultPressed,
}

/// A series found by a search, with its image once loaded.
#[derive(Debug)]
pub struct SearchResult {
    pub index: usize,
    pub search_result: SeriesMainInformation,
    pub image: Option<Vec<u8>>,
}

impl SearchResult {
    /// The result at position `index`, with the address of its image to
    /// load, if the series has one.
    pub fn new(index: usize, search_result: SeriesMainInformation) -> (r: (Self, Option<String>))
        ensures
            r.0.index == index,
            r.0.search_result == search_result,
            r.0.image is None,
            r.1 == search_result.image,
    {
        let image_url = duplicate_option(&search_result.image);
        (Self { index, search_result, image: None }, image_url)
    }

    /// Handles a message; a press gives the series whose page opens.
    pub fn update(&mut self, message: SearchResultMessage) -> (r: Option<SeriesMainInformation>)
        ensures
            final(self).index == old(self).index,
            final(self).search_result == old(self).search_result,
            match message {
                SearchResultMessage::ImageLoaded(image) => r is None && final(self).image == image,
                SearchResultMessage::SeriesResultPressed => (r matches Some(info) && same_information(
                    info,
                    old(self).search_result,
                )) && final(self).image == old(self).image,
            },
    {
        match message {
            SearchResultMessage::ImageLoaded(image) => {
                self.image = image;
                None
            },
            SearchResultMessage::SeriesResultPressed => Some(self.search_result.duplicate()),
        }
    }
}

#[derive(Debug)]
pub enum Message {
    TermChanged(String),
    TermSearched,
    SearchResultsReceived(Result<Vec<SeriesMainInformation>, String>),
    /// A message for the result at this position.
    SearchResult(usize, SearchResultMessage),
    EscapeKeyPressed,
}

/// What the caller has to do after the search handled a message.
#[derive(Debug)]
pub enum Action {
    Nothing,
    /// Search the series database for this term; answer
    /// `SearchResultsReceived`.
    SearchSeries(String),
    /// Load, for each result in order, the image at its address, if any;
    /// answer `SearchResult(i, ImageLoaded(..))` for the result at `i`.
    LoadImages(Vec<Option<String>>),
    /// Open the page of this series.
    OpenSeries(SeriesMainInformation),
}

/// What floats over the page below the search bar.
#[derive(Debug)]
pub enum SearchResultsView {
    /// Nothing.
    Hidden,
    /// A spinner.
    Loading,
    /// "No results".
    NoResults,
    /// The error of the search.
    Error(String),
    /// The results, as many as there are.
    Results(usize),
}

/// The search of the discover tab.
#[derive(Debug)]
pub struct Search {
    pub search_term: String,
    /// The term the results are for.
    pub searched_term: String,
    pub search_results: Result<Vec<SearchResult>, String>,
    pub load_state: LoadState,
}

/// Whether the results are a non-empty list.
pub open spec fn has_results(results: Result<Vec<SearchResult>, String>) -> bool {
    match results {
        Ok(list) => list@.len() > 0,
        Err(_) => false,
    }
}

/// The image of the result at `i`, when the results are a list.
pub open spec fn new_list_image(results: Result<Vec<SearchResult>, String>, i: usize) -> Option<Vec<u8>> {
    match results {
        Ok(list) => list@[i as int].image,
        Err(_) => None,
    }
}

/// The results, each at its position, and the address of the image of each.
fn build_results(results: Vec<SeriesMainInformation>) -> (r: (Vec<SearchResult>, Vec<Option<String>>))
    ensures
        r.0@.len() == results@.len(),
        r.1@.len() == results@.len(),
        forall|i: int|
            0 <= i < results@.len() ==> (#[trigger] r.0@[i]).index == i && r.0@[i].search_result == results@[i]
                && r.0@[i].image is None,
        forall|i: int| 0 <= i < results@.len() ==> #[trigger] r.1@[i] == results@[i].image,
{
    let ghost all = results@;
    let mut list: Vec<SearchResult> = Vec::new();
    let mut urls: Vec<Option<String>> = Vec::new();
    let mut rest = results;
    let count = rest.len();
    let mut k: usize = 0;
    while rest.len() > 0
        invariant
            k + rest@.len() == all.len(),
            all.len() == count,
            rest@ == all.subrange(k as int, all.len() as int),
            list@.len() == k,
            urls@.len() == k,
            forall|i: int|
                0 <= i < k ==> (#[trigger] list@[i]).index == i && list@[i].search_result == all[i]
                    && list@[i].image is None,
            forall|i: int| 0 <= i < k ==> #[trigger] urls@[i] == all[i].image,
        decreases rest@.len(),
    {
        let info = rest.remove(0);
        proof {
            assert(info == all[k as int]);
        }
        let (result, url) = SearchResult::new(k, info);
        list.push(result);
        urls.push(url);
        proof {
            assert(rest@ =~= all.subrange(k + 1, all.len() as int));
        }
        k = k + 1;
    }
    (list, urls)
}

impl Search {
    pub fn new() -> (s: Self)
        ensures
            s.search_term@ == Seq::<char>::empty(),
            s.searched_term@ == Seq::<char>::empty(),
            s.search_results matches Ok(list) && list@.len() == 0,
            s.load_state == LoadState::NotLoaded,
    {
        Self {
            search_term: String::new(),
            searched_term: String::new(),
            search_results: Ok(Vec::new()),
            load_state: LoadState::NotLoaded,
        }
    }

    pub fn update(&mut self, message: Message) -> (a: Action)
        requires
            message matches Message::SearchResult(i, _) ==> (old(self).search_results matches Ok(list) ==> i
                < list@.len()),
        ensures
            message matches Message::TermChanged(t) ==> a is Nothing && final(self).search_term == t
                && final(self).load_state == LoadState::NotLoaded && final(self).searched_term
                == old(self).searched_term && final(self).search_results == old(self).search_results,
            message is TermSearched && old(self).search_term@ == old(self).searched_term@ ==> a is Nothing
                && final(self).search_term == old(self).search_term && final(self).searched_term
                == old(self).searched_term && final(self).search_results == old(self).search_results
                && final(self).load_state == (if has_results(old(self).search_results) {
                LoadState::Loaded
            } else {
                old(self).load_state
            }),
            message is TermSearched && old(self).search_term@ != old(self).searched_term@ ==> (a matches Action::SearchSeries(
                t,
            ) && t@ == old(self).search_term@) && final(self).load_state == LoadState::Loading
                && final(self).searched_term@ == old(self).search_term@ && final(self).search_term
                == old(self).search_term && final(self).search_results == old(self).search_results,
            message matches Message::SearchResultsReceived(Ok(results)) ==> final(self).load_state == LoadState::Loaded
                && final(self).search_term == old(self).search_term && final(self).searched_term
                == old(self).searched_term && (final(self).search_results matches Ok(list) && list@.len()
                == results@.len() && forall|i: int|
                0 <= i < results@.len() ==> (#[trigger] list@[i]).index == i && list@[i].search_result
                    == results@[i] && list@[i].image is None) && (a matches Action::LoadImages(urls) && urls@.len()
                == results@.len() && forall|i: int| 0 <= i < results@.len() ==> #[trigger] urls@[i] == results@[i].image),
            message matches Message::SearchResultsReceived(Err(e)) ==> a is Nothing && final(self).load_state
                == LoadState::Loaded && final(self).search_results == Err::<Vec<SearchResult>, String>(e)
                && final(self).search_term == old(self).search_term && final(self).searched_term
                == old(self).searched_term,
            message matches Message::SearchResult(i, m) ==> match old(self).search_results {
                Ok(list) => (final(self).search_results matches Ok(new_list) && new_list@.len() == list@.len()
                    && (forall|j: int| 0 <= j < list@.len() && j != i ==> #[trigger] new_list@[j] == list@[j])
                    && new_list@[i as int].index == list@[i as int].index && new_list@[i as int].search_result
                    == list@[i as int].search_result) && match m {
                    SearchResultMessage::ImageLoaded(image) => a is Nothing && final(self).load_state
                        == old(self).load_state && new_list_image(final(self).search_results, i) == image,
                    SearchResultMessage::SeriesResultPressed => (a matches Action::OpenSeries(info)
                        && same_information(info, list@[i as int].search_result)) && final(self).load_state
                        == LoadState::NotLoaded && new_list_image(final(self).search_results, i)
                        == list@[i as int].image,
                },
                Err(_) => a is Nothing && final(self).load_state == old(self).load_state && final(self).search_results
                    == old(self).search_results,
            },
            message is EscapeKeyPressed ==> a is Nothing && final(self).load_state == LoadState::NotLoaded
                && final(self).search_results == old(self).search_results && final(self).search_term
                == old(self).search_term,
    {
        match message {
            Message::TermChanged(term) => {
                self.search_term = term;
                self.load_state = LoadState::NotLoaded;
                Action::Nothing
            },
            Message::TermSearched => {
                if str_eq(self.search_term.as_str(), self.searched_term.as_str()) {
                    let non_empty = match &self.search_results {
                        Ok(results) => results.len() > 0,
                        Err(_) => false,
                    };
                    if non_empty {
                        self.load_state = LoadState::Loaded;
                    }
                    Action::Nothing
                } else {
                    self.load_state = LoadState::Loading;
                    self.searched_term = self.search_term.clone();
                    Action::SearchSeries(self.search_term.clone())
                }
            },
            Message::SearchResultsReceived(results) => {
                self.load_state = LoadState::Loaded;
                match results {
                    Ok(results) => {
                        let (list, urls) = build_results(results);
                        self.search_results = Ok(list);
                        Action::LoadImages(urls)
                    },
                    Err(err) => {
                        self.search_results = Err(err);
                        Action::Nothing
                    },
                }
            },
            Message::SearchResult(index, message) => {
                let mut results: Result<Vec<SearchResult>, String> = Ok(Vec::new());
                std::mem::swap(&mut results, &mut self.search_results);
                match results {
                    Ok(mut list) => {
                        if let SearchResultMessage::SeriesResultPressed = message {
                            self.load_state = LoadState::NotLoaded;
                        }
                        let mut result = list.remove(index);
                        let opened = result.update(message);
                        list.insert(index, result);
                        self.search_results = Ok(list);
                        match opened {
                            Some(info) => Action::OpenSeries(info),
                            None => Action::Nothing,
                        }
                    },
                    Err(err) => {
                        self.search_results = Err(err);
                        Action::Nothing
                    },
                }
            },
            Message::EscapeKeyPressed => {
                self.load_state = LoadState::NotLoaded;
                Action::Nothing
            },
        }
    }

    /// What floats below the search bar.
    pub fn view_state(&self) -> (v: SearchResultsView)
        ensures
            self.load_state == LoadState::NotLoaded ==> v is Hidden,
            self.load_state == LoadState::Loading ==> v is Loading,
            self.load_state == LoadState::Loaded ==> match self.search_results {
                Ok(list) => if list@.len() == 0 {
                    v is NoResults
                } else {
                    v == SearchResultsView::Results(list@.len() as usize)
                },
                Err(e) => v == SearchResultsView::Error(e),
            },
    {
        match self.load_state {
            LoadState::NotLoaded => SearchResultsView::Hidden,
            LoadState::Loading => SearchResultsView::Loading,
            LoadState::Loaded => match &self.search_results {
                Ok(results) => {
                    if results.len() == 0 {
                        SearchResultsView::NoResults
                    } else {
                        SearchResultsView::Results(results.len())
                    }
                },
                Err(err) => SearchResultsView::Error(err.clone()),
            },
        }
    }
}

/// `Premiered: <date>`.
pub open spec fn premiered_text(date: Seq<char>) -> Seq<char> {
    "Premiered: "@ + date
}

/// The premiere line of a search result, when the date is known.
pub fn search_result_premiered(show: &SeriesMainInformation) -> (s: Option<String>)
    ensures
        match show.premiered {
            Some(d) => s matches Some(t) && t@ == premiered_text(d@),
            None => s is None,
        },
{
    match &show.premiered {
        Some(date) => {
            let mut s = String::from_str("Premiered: ");
            s.append(date.as_str());
            proof {
                reveal_strlit("Premiered: ");
            }
            Some(s)
        },
        None => None,
    }
}

} // verus!
