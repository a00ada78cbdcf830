//! The discover page: the episodes airing today, the trending shows, and
//! the search whose results float over them.

use vstd::prelude::*;

pub mod searching;

use crate::series_information::SeriesMainInformation;
use searching::{search_step, Action as SearchAction, LoadState as SearchLoadState, Message as SearchMessage, Search};

verus! {

/// Whether the page shows its posters or waits for them.
#[derive(Debug, Clone, Copy, PartialEq, Eq, Structural)]
pub enum LoadState {
    Loading,
    Loaded,
}

impl Default for LoadState {
    fn default() -> (s: Self)
        ensures
            s == LoadState::Loading,
    {
        LoadState::Loading
    }
}

/// An episode airing today, as the schedule gives it.
#[derive(Debug)]
pub struct ScheduledEpisode {
    pub name: String,
    /// The address of the information of its series.
    pub show_url: String,
}

#[derive(Debug)]
pub enum EpisodePosterMessage {
    ImageLoaded(Option<Vec<u8>>),
    SeriesInformationLoaded(SeriesMainInformation),
    EpisodePosterPressed,
}

/// What the caller has to do for a poster.
#[derive(Debug)]
pub enum PosterAction {
    Nothing,
    /// Load the information of the series at this address; answer
    /// `SeriesInformationLoaded`.
    LoadSeriesInformation(String),
    /// Load the image at this address; answer `ImageLoaded`.
    LoadImage(String),
    /// Open the page of this series.
    SelectSeries(u32),
}

/// What an episode poster does with `message`: the poster after it and the
/// action.
pub open spec fn episode_poster_step(
    poster: EpisodePoster,
    message: EpisodePosterMessage,
    after: EpisodePoster,
    a: PosterAction,
) -> bool {
    match message {
        EpisodePosterMessage::ImageLoaded(image) => a is Nothing && after == EpisodePoster { image, ..poster },
        EpisodePosterMessage::SeriesInformationLoaded(info) => after == EpisodePoster {
            series_belonging: Some(info),
            ..poster
        } && match info.image {
            Some(url) => a == PosterAction::LoadImage(url),
            None => a is Nothing,
        },
        EpisodePosterMessage::EpisodePosterPressed => after == poster && match poster.series_belonging {
            Some(info) => a == PosterAction::SelectSeries(info.id),
            None => a is Nothing,
        },
    }
}

/// The poster of an episode airing today.
#[derive(Debug)]
pub struct EpisodePoster {
    pub index: usize,
    pub image: Option<Vec<u8>>,
    /// The series of the episode, once loaded.
    pub series_belonging: Option<SeriesMainInformation>,
}

impl EpisodePoster {
    /// The poster, with the information of the series of the episode to
    /// load.
    pub fn new(index: usize, episode: ScheduledEpisode) -> (r: (Self, PosterAction))
        ensures
            r.0.index == index,
            r.0.image is None,
            r.0.series_belonging is None,
            r.1 == PosterAction::LoadSeriesInformation(episode.show_url),
    {
        (Self { index, image: None, series_belonging: None }, PosterAction::LoadSeriesInformation(episode.show_url))
    }

    pub fn update(&mut self, message: EpisodePosterMessage) -> (a: PosterAction)
        ensures
            episode_poster_step(*old(self), message, *final(self), a),
    {
        match message {
            EpisodePosterMessage::ImageLoaded(image) => {
                self.image = image;
                PosterAction::Nothing
            },
            EpisodePosterMessage::SeriesInformationLoaded(info) => {
                let url = crate::series_information::duplicate_option(&info.image);
                self.series_belonging = Some(info);
                match url {
                    Some(url) => PosterAction::LoadImage(url),
                    None => PosterAction::Nothing,
                }
            },
            EpisodePosterMessage::EpisodePosterPressed => match &self.series_belonging {
                Some(info) => PosterAction::SelectSeries(info.id),
                None => PosterAction::Nothing,
            },
        }
    }

    /// Whether the poster can be pressed: its series is known.
    pub fn is_pressable(&self) -> (b: bool)
        ensures
            b == (self.series_belonging is Some),
    {
        self.series_belonging.is_some()
    }
}

#[derive(Debug)]
pub enum SeriesPosterMessage {
    ImageLoaded(Option<Vec<u8>>),
    SeriesPosterPressed,
}

/// What a trending show's poster does with `message`: the poster after it
/// and the action.
pub open spec fn series_poster_step(
    poster: SeriesPoster,
    message: SeriesPosterMessage,
    after: SeriesPoster,
    a: PosterAction,
) -> bool {
    match message {
        SeriesPosterMessage::ImageLoaded(image) => a is Nothing && after == SeriesPoster { image, ..poster },
        SeriesPosterMessage::SeriesPosterPressed => after == poster && a == PosterAction::SelectSeries(
            poster.series_information.id,
        ),
    }
}

/// The loading of its image that a new poster of the series asks for.
pub open spec fn image_load(series_information: SeriesMainInformation) -> PosterAction {
    match series_information.image {
        Some(url) => PosterAction::LoadImage(url),
        None => PosterAction::Nothing,
    }
}

/// The poster of a trending show.
#[derive(Debug)]
pub struct SeriesPoster {
    pub series_information: SeriesMainInformation,
    pub image: Option<Vec<u8>>,
}

impl SeriesPoster {
    /// The poster, with its image to load when the series has one.
    pub fn new(series_information: SeriesMainInformation) -> (r: (Self, PosterAction))
        ensures
            r.0.series_information == series_information,
            r.0.image is None,
            r.1 == image_load(series_information),
    {
        let action = match &series_information.image {
            Some(url) => PosterAction::LoadImage(url.clone()),
            None => PosterAction::Nothing,
        };
        (Self { series_information, image: None }, action)
    }

    pub fn update(&mut self, message: SeriesPosterMessage) -> (a: PosterAction)
        ensures
            series_poster_step(*old(self), message, *final(self), a),
    {
        match message {
            SeriesPosterMessage::ImageLoaded(image) => {
                self.image = image;
                PosterAction::Nothing
            },
            SeriesPosterMessage::SeriesPosterPressed => PosterAction::SelectSeries(self.series_information.id),
        }
    }
}

#[derive(Debug)]
pub enum Message {
    LoadSchedule,
    ScheduleLoaded(Vec<ScheduledEpisode>),
    SeriesUpdatesLoaded(Vec<SeriesMainInformation>),
    EpisodePosterAction(usize, EpisodePosterMessage),
    SeriesPosterAction(usize, SeriesPosterMessage),
    SearchAction(SearchMessage),
    ShowOverlay,
    HideOverlay,
}

/// What the caller has to do after the page handled a message.
#[derive(Debug)]
pub enum Action {
    Nothing,
    /// Load the schedule of today and the trending shows; answer
    /// `ScheduleLoaded` and `SeriesUpdatesLoaded`.
    LoadSchedule,
    /// What the posters, in order, ask for.
    Posters(Vec<PosterAction>),
    /// What a poster asks for.
    Poster(PosterAction),
    Search(SearchAction),
    /// Open the page of the series with this id.
    SeriesResultSelected(u32),
}

/// The discover page.
#[derive(Debug)]
pub struct Discover {
    pub load_state: LoadState,
    pub show_overlay: bool,
    pub search_state: Search,
    pub new_episodes: Vec<EpisodePoster>,
    pub series_updates: Vec<SeriesPoster>,
}

impl Discover {
    /// The page, with the schedule and the trending shows to load.
    pub fn new() -> (r: (Self, Action))
        ensures
            r.0.load_state == LoadState::Loading,
            !r.0.show_overlay,
            r.0.new_episodes@.len() == 0,
            r.0.series_updates@.len() == 0,
            r.0.search_state.load_state == SearchLoadState::NotLoaded,
            r.1 is LoadSchedule,
    {
        (
            Self {
                load_state: LoadState::Loading,
                show_overlay: false,
                search_state: Search::new(),
                new_episodes: Vec::new(),
                series_updates: Vec::new(),
            },
            Action::LoadSchedule,
        )
    }

    /// Handles a message. While search results are shown the overlay is
    /// shown whatever the message.
    pub fn update(&mut self, message: Message) -> (a: Action)
        requires
            message matches Message::EpisodePosterAction(i, _) ==> i < old(self).new_episodes@.len(),
            message matches Message::SeriesPosterAction(i, _) ==> i < old(self).series_updates@.len(),
            message matches Message::SearchAction(m) ==> !(m is SearchFail),
        ensures
            old(self).search_state.load_state == SearchLoadState::Loaded && !(message is HideOverlay) ==> final(self).show_overlay,
            message is LoadSchedule ==> a is LoadSchedule && final(self).load_state == LoadState::Loading,
            message matches Message::ScheduleLoaded(episodes) ==> final(self).load_state == LoadState::Loaded
                && final(self).new_episodes@.len() == episodes@.len() && (forall|i: int|
                0 <= i < episodes@.len() ==> (#[trigger] final(self).new_episodes@[i]).index == i
                    && final(self).new_episodes@[i].series_belonging is None) && (a matches Action::Posters(actions)
                && actions@.len() == episodes@.len() && forall|i: int|
                0 <= i < episodes@.len() ==> #[trigger] actions@[i] == PosterAction::LoadSeriesInformation(
                    episodes@[i].show_url,
                )),
            message matches Message::SeriesUpdatesLoaded(series) ==> final(self).series_updates@.len() == series@.len()
                && (forall|i: int|
                0 <= i < series@.len() ==> (#[trigger] final(self).series_updates@[i]).series_information == series@[i]
                    && final(self).series_updates@[i].image is None) && (a matches Action::Posters(actions)
                && actions@.len() == series@.len() && forall|i: int|
                0 <= i < series@.len() ==> #[trigger] actions@[i] == image_load(series@[i])),
            match message {
                Message::EpisodePosterAction(i, m) => {
                    &&& a matches Action::Poster(x) && episode_poster_step(
                        old(self).new_episodes@[i as int],
                        m,
                        final(self).new_episodes@[i as int],
                        x,
                    )
                    &&& final(self).new_episodes@.len() == old(self).new_episodes@.len()
                    &&& forall|j: int|
                        0 <= j < old(self).new_episodes@.len() && j != i ==> #[trigger] final(self).new_episodes@[j]
                            == old(self).new_episodes@[j]
                    &&& final(self).series_updates == old(self).series_updates
                    &&& final(self).search_state == old(self).search_state
                },
                Message::SeriesPosterAction(i, m) => {
                    &&& a matches Action::Poster(x) && series_poster_step(
                        old(self).series_updates@[i as int],
                        m,
                        final(self).series_updates@[i as int],
                        x,
                    )
                    &&& final(self).series_updates@.len() == old(self).series_updates@.len()
                    &&& forall|j: int|
                        0 <= j < old(self).series_updates@.len() && j != i ==> #[trigger] final(self).series_updates@[j]
                            == old(self).series_updates@[j]
                    &&& final(self).new_episodes == old(self).new_episodes
                    &&& final(self).search_state == old(self).search_state
                },
                Message::SearchAction(SearchMessage::SeriesResultPressed(id)) => a == Action::SeriesResultSelected(id)
                    && final(self).search_state == old(self).search_state,
                Message::SearchAction(m) => a matches Action::Search(x) && search_step(
                    old(self).search_state,
                    m,
                    final(self).search_state,
                    x,
                ),
                _ => final(self).search_state == old(self).search_state,
            },
            message is ShowOverlay ==> a is Nothing && final(self).show_overlay,
            message is HideOverlay ==> a is Nothing && !final(self).show_overlay,
    {
        if self.search_state.load_state == SearchLoadState::Loaded {
            self.show_overlay = true;
        }
        match message {
            Message::LoadSchedule => {
                self.load_state = LoadState::Loading;
                Action::LoadSchedule
            },
            Message::ScheduleLoaded(episodes) => {
                self.load_state = LoadState::Loaded;
                let ghost all = episodes@;
                let mut posters: Vec<EpisodePoster> = Vec::new();
                let mut actions: Vec<PosterAction> = Vec::new();
                let mut rest = episodes;
                let count = rest.len();
                let mut k: usize = 0;
                while rest.len() > 0
                    invariant
                        k + rest@.len() == all.len(),
                        all.len() == count,
                        rest@ == all.subrange(k as int, all.len() as int),
                        posters@.len() == k,
                        actions@.len() == k,
                        forall|i: int| 0 <= i < k ==> (#[trigger] posters@[i]).index == i
                            && posters@[i].series_belonging is None,
                        forall|i: int| 0 <= i < k ==> #[trigger] actions@[i] == PosterAction::LoadSeriesInformation(
                            all[i].show_url,
                        ),
                    decreases rest@.len(),
                {
                    let episode = rest.remove(0);
                    proof {
                        assert(episode == all[k as int]);
                    }
                    let (poster, action) = EpisodePoster::new(k, episode);
                    posters.push(poster);
                    actions.push(action);
                    proof {
                        assert(rest@ =~= all.subrange(k + 1, all.len() as int));
                    }
                    k = k + 1;
                }
                self.new_episodes = posters;
                Action::Posters(actions)
            },
            Message::SeriesUpdatesLoaded(series) => {
                let ghost all = series@;
                let mut posters: Vec<SeriesPoster> = Vec::new();
                let mut actions: Vec<PosterAction> = Vec::new();
                let mut rest = series;
                let count = rest.len();
                let mut k: usize = 0;
                while rest.len() > 0
                    invariant
                        k + rest@.len() == all.len(),
                        all.len() == count,
                        rest@ == all.subrange(k as int, all.len() as int),
                        posters@.len() == k,
                        actions@.len() == k,
                        forall|i: int| 0 <= i < k ==> (#[trigger] posters@[i]).series_information == all[i]
                            && posters@[i].image is None,
                        forall|i: int| 0 <= i < k ==> #[trigger] actions@[i] == image_load(all[i]),
                    decreases rest@.len(),
                {
                    let info = rest.remove(0);
                    proof {
                        assert(info == all[k as int]);
                    }
                    let (poster, action) = SeriesPoster::new(info);
                    posters.push(poster);
                    actions.push(action);
                    proof {
                        assert(rest@ =~= all.subrange(k + 1, all.len() as int));
                    }
                    k = k + 1;
                }
                self.series_updates = posters;
                Action::Posters(actions)
            },
            Message::EpisodePosterAction(index, message) => {
                let mut posters: Vec<EpisodePoster> = Vec::new();
                std::mem::swap(&mut posters, &mut self.new_episodes);
                let mut poster = posters.remove(index);
                let action = poster.update(message);
                posters.insert(index, poster);
                self.new_episodes = posters;
                Action::Poster(action)
            },
            Message::SeriesPosterAction(index, message) => {
                let mut posters: Vec<SeriesPoster> = Vec::new();
                std::mem::swap(&mut posters, &mut self.series_updates);
                let mut poster = posters.remove(index);
                let action = poster.update(message);
                posters.insert(index, poster);
                self.series_updates = posters;
                Action::Poster(action)
            },
            Message::SearchAction(message) => match message {
                SearchMessage::SeriesResultPressed(series_id) => Action::SeriesResultSelected(series_id),
                message => Action::Search(self.search_state.update(message)),
            },
            Message::ShowOverlay => {
                self.show_overlay = true;
                Action::Nothing
            },
            Message::HideOverlay => {
                self.show_overlay = false;
                Action::Nothing
            },
        }
    }
}

/// The built-in themes a container can be drawn with.
#[derive(Debug, Clone, Copy, PartialEq, Eq, Structural)]
pub enum BaseTheme {
    Light,
    Dark,
    Custom,
}

/// The palette whose background the search results area takes.
#[derive(Debug, Clone, Copy, PartialEq, Eq, Structural)]
pub enum PaletteKind {
    Light,
    Dark,
}

/// The style of the search results area: the background of the palette of
/// the theme.
#[derive(Debug, Clone, Copy, PartialEq, Eq, Structural)]
pub struct ContainerTheme;

impl ContainerTheme {
    /// The palette whose background is used; a custom theme has none, and
    /// is left out by `requires`.
    pub fn background_palette(&self, style: BaseTheme) -> (p: PaletteKind)
        requires
            style != BaseTheme::Custom,
        ensures
            style == BaseTheme::Light ==> p == PaletteKind::Light,
            style == BaseTheme::Dark ==> p == PaletteKind::Dark,
    {
        match style {
            BaseTheme::Light => PaletteKind::Light,
            _ => PaletteKind::Dark,
        }
    }
}

} // verus!
