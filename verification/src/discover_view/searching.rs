//! The search bar of the discover page: the results float over the page.

use vstd::prelude::*;

use crate::series_information::SeriesMainInformation;

verus! {

/// Whether the results are shown.
#[derive(Debug, Clone, Copy, PartialEq, Eq, Structural)]
pub enum LoadState {
    Loaded,
    Loading,
    NotLoaded,
}

impl Default for LoadState {
    fn default() -> (s: Self)
        ensures
            s == LoadState::NotLoaded,
    {
        LoadState::NotLoaded
    }
}

#[derive(Debug)]
pub enum Message {
    SearchTermChanged(String),
    SearchTermSearched,
    SearchSuccess(Vec<SeriesMainInformation>),
    /// The search failed.
    SearchFail,
    ImagesLoaded(Vec<Option<Vec<u8>>>),
    SeriesResultPressed(u32),
}

/// What the caller has to do after the search handled a message.
#[derive(Debug)]
pub enum Action {
    Nothing,
    /// The term was cleared: hide the results.
    HideOverlay,
    /// Search the series database for this term, and show the results
    /// area; answer `SearchSuccess` or `SearchFail`.
    SearchAndShowOverlay(String),
    /// Load the posters of the results at these addresses (one per result)
    /// and show the results area; answer `ImagesLoaded`.
    LoadImagesAndShowOverlay(Vec<Option<String>>),
}

/// The search of the discover page.
#[derive(Debug)]
pub struct Search {
    pub search_term: String,
    pub series_search_result: Vec<SeriesMainInformation>,
    pub series_search_results_images: Vec<Option<Vec<u8>>>,
    pub load_state: LoadState,
}

/// What the search does with `message`: the search after it and the
/// action. A failed search and a pressed result are not handled here.
pub open spec fn search_step(search: Search, message: Message, after: Search, a: Action) -> bool {
    match message {
        Message::SearchTermChanged(t) => if t@.len() == 0 {
            a is HideOverlay && after == Search { search_term: t, load_state: LoadState::NotLoaded, ..search }
        } else {
            a is Nothing && after == Search { search_term: t, ..search }
        },
        Message::SearchTermSearched => (a matches Action::SearchAndShowOverlay(t) && t@ == search.search_term@)
            && after == Search { load_state: LoadState::Loading, ..search },
        Message::SearchSuccess(results) => (a matches Action::LoadImagesAndShowOverlay(urls) && urls@ == image_urls(
            results@,
        )) && after.load_state == LoadState::Loaded && after.series_search_result == results
            && after.series_search_results_images@.len() == 0 && after.search_term == search.search_term,
        Message::ImagesLoaded(images) => a is Nothing && after == Search { series_search_results_images: images, ..search },
        _ => true,
    }
}

/// What the results area shows.
#[derive(Debug, Clone, Copy, PartialEq, Eq, Structural)]
pub enum ResultsView {
    Hidden,
    Loading,
    /// "No results".
    NoResults,
    /// This many results.
    Results(usize),
}

/// The poster addresses of the series.
pub open spec fn image_urls(series: Seq<SeriesMainInformation>) -> Seq<Option<String>> {
    series.map_values(|s: SeriesMainInformation| s.image)
}

/// The poster addresses of the results.
pub fn result_image_urls(results: &Vec<SeriesMainInformation>) -> (r: Vec<Option<String>>)
    ensures
        r@ == image_urls(results@),
{
    let mut r: Vec<Option<String>> = Vec::new();
    let mut i: usize = 0;
    while i < results.len()
        invariant
            i <= results@.len(),
            r@ == image_urls(results@.take(i as int)),
        decreases results@.len() - i,
    {
        r.push(crate::series_information::duplicate_option(&results[i].image));
        proof {
            assert(r@ =~= image_urls(results@.take(i + 1)));
        }
        i = i + 1;
    }
    proof {
        assert(results@.take(i as int) =~= results@);
    }
    r
}

impl Search {
    pub fn new() -> (s: Self)
        ensures
            s.search_term@ == Seq::<char>::empty(),
            s.series_search_result@.len() == 0,
            s.series_search_results_images@.len() == 0,
            s.load_state == LoadState::NotLoaded,
    {
        Self {
            search_term: String::new(),
            series_search_result: Vec::new(),
            series_search_results_images: Vec::new(),
            load_state: LoadState::NotLoaded,
        }
    }

    /// Handles a message. A failed search and a pressed result are left out
    /// by `requires`: the page handles the second, the first stops the
    /// program.
    pub fn update(&mut self, message: Message) -> (a: Action)
        requires
            !(message is SearchFail),
            !(message is SeriesResultPressed),
        ensures
            search_step(*old(self), message, *final(self), a),
    {
        match message {
            Message::SearchTermChanged(term) => {
                self.search_term = term;
                if self.search_term.as_str().unicode_len() == 0 {
                    self.load_state = LoadState::NotLoaded;
                    Action::HideOverlay
                } else {
                    Action::Nothing
                }
            },
            Message::SearchTermSearched => {
                self.load_state = LoadState::Loading;
                Action::SearchAndShowOverlay(self.search_term.clone())
            },
            Message::SearchSuccess(results) => {
                self.load_state = LoadState::Loaded;
                self.series_search_results_images = Vec::new();
                let urls = result_image_urls(&results);
                self.series_search_result = results;
                Action::LoadImagesAndShowOverlay(urls)
            },
            Message::ImagesLoaded(images) => {
                self.series_search_results_images = images;
                Action::Nothing
            },
            Message::SearchFail => Action::Nothing,
            Message::SeriesResultPressed(_) => Action::Nothing,
        }
    }

    /// What the results area shows.
    pub fn view_state(&self) -> (v: ResultsView)
        ensures
            v == (match self.load_state {
                LoadState::Loaded => if self.series_search_result@.len() == 0 {
                    ResultsView::NoResults
                } else {
                    ResultsView::Results(self.series_search_result@.len() as usize)
                },
                LoadState::Loading => ResultsView::Loading,
                LoadState::NotLoaded => ResultsView::Hidden,
            }),
    {
        match self.load_state {
            LoadState::Loaded => {
                if self.series_search_result.len() == 0 {
                    ResultsView::NoResults
                } else {
                    ResultsView::Results(self.series_search_result.len())
                }
            },
            LoadState::Loading => ResultsView::Loading,
            LoadState::NotLoaded => ResultsView::Hidden,
        }
    }

    /// The poster of the result at `index`, once the posters arrived.
    pub fn result_image(&self, index: usize) -> (r: Option<&Vec<u8>>)
        ensures
            index < self.series_search_results_images@.len() ==> r == match self.series_search_results_images@[index as int] {
                Some(img) => Some(&img),
                None => None::<&Vec<u8>>,
            },
            index >= self.series_search_results_images@.len() ==> r is None,
    {
        if index < self.series_search_results_images.len() {
            match &self.series_search_results_images[index] {
                Some(img) => Some(img),
                None => None,
            }
        } else {
            None
        }
    }
}

} // verus!
