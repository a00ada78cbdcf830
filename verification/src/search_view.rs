//! The search page of the program: a term, its results and their posters.

use vstd::prelude::*;

use crate::discover_view::searching::{image_urls, result_image_urls};
use crate::series_information::SeriesMainInformation;

verus! {

/// Whether the results are shown.
#[derive(Debug, Clone, Copy, PartialEq, Eq, Structural)]
pub enum LoadState {
    Loaded,
    Loading,
    NotLoaded,
}

impl Default for LoadState {
    fn default() -> (s: Self)
        ensures
            s == LoadState::NotLoaded,
    {
        LoadState::NotLoaded
    }
}

#[derive(Debug)]
pub enum Message {
    SearchTermChanged(String),
    SearchTermSearched,
    SearchSuccess(Vec<SeriesMainInformation>),
    SearchFail,
    ImagesLoaded(Vec<Option<Vec<u8>>>),
    SeriesResultPressed(u32),
}

/// What the caller has to do after the page handled a message.
#[derive(Debug)]
pub enum Action {
    Nothing,
    /// Search the series database for this term; answer `SearchSuccess` or
    /// `SearchFail`.
    Search(String),
    /// Load the posters of the results at these addresses, one per result;
    /// answer `ImagesLoaded`.
    LoadImages(Vec<Option<String>>),
}

/// The search page.
#[derive(Debug)]
pub struct Search {
    pub search_term: String,
    pub series_search_result: Vec<SeriesMainInformation>,
    pub series_search_results_images: Vec<Option<Vec<u8>>>,
    pub load_state: LoadState,
}

impl Search {
    pub fn new() -> (s: Self)
        ensures
            s.search_term@ == Seq::<char>::empty(),
            s.series_search_result@.len() == 0,
            s.load_state == LoadState::NotLoaded,
    {
        Self {
            search_term: String::new(),
            series_search_result: Vec::new(),
            series_search_results_images: Vec::new(),
            load_state: LoadState::NotLoaded,
        }
    }

    /// Handles a message. A failed search and a pressed result are left out
    /// by `requires`: the program handles the second, the first stops it.
    pub fn update(&mut self, message: Message) -> (a: Action)
        requires
            !(message is SearchFail),
            !(message is SeriesResultPressed),
        ensures
            match message {
                Message::SearchTermChanged(t) => a is Nothing && *final(self) == Search { search_term: t, ..*old(self) },
                Message::SearchTermSearched => (a matches Action::Search(t) && t@ == old(self).search_term@)
                    && *final(self) == Search { load_state: LoadState::Loading, ..*old(self) },
                Message::SearchSuccess(results) => (a matches Action::LoadImages(urls) && urls@ == image_urls(results@))
                    && final(self).load_state == LoadState::Loaded && final(self).series_search_result == results
                    && final(self).series_search_results_images@.len() == 0 && final(self).search_term
                    == old(self).search_term,
                Message::ImagesLoaded(images) => a is Nothing && *final(self) == Search {
                    series_search_results_images: images,
                    ..*old(self)
                },
                _ => true,
            },
    {
        match message {
            Message::SearchTermChanged(term) => {
                self.search_term = term;
                Action::Nothing
            },
            Message::SearchTermSearched => {
                self.load_state = LoadState::Loading;
                Action::Search(self.search_term.clone())
            },
            Message::SearchSuccess(results) => {
                self.load_state = LoadState::Loaded;
                self.series_search_results_images = Vec::new();
                let urls = result_image_urls(&results);
                self.series_search_result = results;
                Action::LoadImages(urls)
            },
            Message::ImagesLoaded(images) => {
                self.series_search_results_images = images;
                Action::Nothing
            },
            Message::SearchFail => Action::Nothing,
            Message::SeriesResultPressed(_) => Action::Nothing,
        }
    }

    /// Whether the results are listed.
    pub fn shows_results(&self) -> (b: bool)
        ensures
            b == (self.load_state == LoadState::Loaded),
    {
        self.load_state == LoadState::Loaded
    }
}

} // verus!
