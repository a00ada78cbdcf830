//! A series page: the series information, its seasons, the people who make
//! it and the series suggested beside it.

use vstd::prelude::*;

use crate::cast_widget::{cast_widget_step, Action as CastAction, CastWidget, Message as CastMessage};
use crate::season_widget::{seasons_step, Action as SeasonsAction, Seasons, SeasonsMessage};
use crate::series_information::SeriesMainInformation;

verus! {

/// Which people the people part shows.
#[derive(Debug, Clone, Copy, PartialEq, Eq, Structural)]
pub enum People {
    Crew,
    Cast,
}

/// The name of a kind of people.
pub open spec fn people_name(people: People) -> Seq<char> {
    match people {
        People::Crew => "Crew"@,
        People::Cast => "Cast"@,
    }
}

impl People {
    /// The name shown beside the toggler.
    pub fn to_string(&self) -> (s: String)
        ensures
            s@ == people_name(*self),
    {
        proof {
            reveal_strlit("Crew");
            reveal_strlit("Cast");
        }
        match self {
            People::Crew => String::from_str("Crew"),
            People::Cast => String::from_str("Cast"),
        }
    }
}

#[derive(Debug)]
pub enum PeopleMessage {
    PeopleToggled(bool),
    CastWidget(CastMessage),
}

/// What the caller has to do after the people part handled a message.
#[derive(Debug)]
pub enum PeopleAction {
    Nothing,
    Cast(CastAction),
    /// Load the crew of the series with this id.
    FetchCrew(u32),
}

/// The people part: the cast, or the crew once asked for.
#[derive(Debug)]
pub struct PeopleWidget {
    pub series_id: u32,
    pub current_people: People,
    pub cast_widget: CastWidget,
    /// Whether the crew was asked for.
    pub crew_requested: bool,
    pub toggled: bool,
}

/// `No <people> Found!`.
pub open spec fn people_not_found_text(people: People) -> Seq<char> {
    "No "@ + people_name(people) + " Found!"@
}

/// What the people part does with `message`: the part after it and the
/// action. Toggling switches between the cast and the crew, and the crew is
/// loaded the first time it is shown.
pub open spec fn people_step(widget: PeopleWidget, message: PeopleMessage, after: PeopleWidget, a: PeopleAction) -> bool {
    match message {
        PeopleMessage::PeopleToggled(t) => if widget.current_people == People::Crew {
            a is Nothing && after == PeopleWidget { toggled: t, current_people: People::Cast, ..widget }
        } else {
            after == PeopleWidget { toggled: t, current_people: People::Crew, crew_requested: true, ..widget } && (
            if widget.crew_requested {
                a is Nothing
            } else {
                a == PeopleAction::FetchCrew(widget.series_id)
            })
        },
        PeopleMessage::CastWidget(m) => (a matches PeopleAction::Cast(x) && cast_widget_step(
            widget.cast_widget,
            m,
            after.cast_widget,
            x,
        )) && after == PeopleWidget { cast_widget: after.cast_widget, ..widget },
    }
}

impl PeopleWidget {
    /// The people part, with the cast of the series to load.
    pub fn new(series_id: u32) -> (r: (Self, PeopleAction))
        ensures
            r.0.series_id == series_id,
            r.0.current_people == People::Cast,
            !r.0.crew_requested,
            !r.0.toggled,
            r.1 == PeopleAction::Cast(CastAction::LoadCast(series_id)),
    {
        let (cast_widget, action) = CastWidget::new(series_id);
        (
            Self { series_id, current_people: People::Cast, cast_widget, crew_requested: false, toggled: false },
            PeopleAction::Cast(action),
        )
    }

    pub fn update(&mut self, message: PeopleMessage) -> (a: PeopleAction)
        requires
            message matches PeopleMessage::CastWidget(CastMessage::Cast(i, _)) ==> i < old(self).cast_widget.casts@.len(),
        ensures
            people_step(*old(self), message, *final(self), a),
    {
        match message {
            PeopleMessage::CastWidget(message) => PeopleAction::Cast(self.cast_widget.update(message)),
            PeopleMessage::PeopleToggled(toggled) => {
                self.toggled = toggled;
                match self.current_people {
                    People::Crew => {
                        self.current_people = People::Cast;
                        PeopleAction::Nothing
                    },
                    People::Cast => {
                        self.current_people = People::Crew;
                        if !self.crew_requested {
                            self.crew_requested = true;
                            PeopleAction::FetchCrew(self.series_id)
                        } else {
                            PeopleAction::Nothing
                        }
                    },
                }
            },
        }
    }

    /// The text shown when the people shown were not found.
    pub fn people_not_found(&self) -> (s: String)
        ensures
            s@ == people_not_found_text(self.current_people),
    {
        let mut s = String::from_str("No ");
        let name = self.current_people.to_string();
        s.append(name.as_str());
        s.append(" Found!");
        proof {
            reveal_strlit("No ");
            reveal_strlit(" Found!");
        }
        s
    }
}

/// The suggestions without the series of the page: its first occurrence is
/// removed.
pub open spec fn without_parent(series: Seq<SeriesMainInformation>, parent_id: u32) -> Seq<SeriesMainInformation> {
    if exists|i: int| 0 <= i < series.len() && series[i].id == parent_id {
        let i = choose|i: int|
            0 <= i < series.len() && series[i].id == parent_id && forall|j: int| 0 <= j < i ==> series[j].id
                != parent_id;
        series.remove(i)
    } else {
        series
    }
}

/// Removes the first series with the id `parent_id`, if any.
pub fn remove_parent(series: &mut Vec<SeriesMainInformation>, parent_id: u32)
    ensures
        final(series)@ == without_parent(old(series)@, parent_id),
{
    let mut i: usize = 0;
    while i < series.len()
        invariant
            i <= series@.len(),
            series@ == old(series)@,
            forall|j: int| 0 <= j < i ==> series@[j].id != parent_id,
        decreases series@.len() - i,
    {
        if series[i].id == parent_id {
            proof {
                let s = old(series)@;
                let k = choose|k: int|
                    0 <= k < s.len() && s[k].id == parent_id && forall|j: int| 0 <= j < k ==> s[j].id != parent_id;
                if k < i {
                } else if k > i {
                    assert(s[i as int].id == parent_id);
                }
                assert(k == i);
            }
            let _ = series.remove(i);
            return;
        }
        i = i + 1;
    }
}

#[derive(Debug, Clone, Copy, PartialEq, Eq, Structural)]
pub enum SuggestionLoadState {
    Loading,
    Loaded,
}

#[derive(Debug)]
pub enum SuggestionMessage {
    /// The series of the schedule that share the genres of the series of
    /// the page arrived.
    SeriesByGenresLoaded(Vec<SeriesMainInformation>),
    /// The suggested poster at this position was pressed.
    SeriesPosterPressed(usize),
}

/// What the caller has to do after the suggestions handled a message.
#[derive(Debug)]
pub enum SuggestionAction {
    Nothing,
    /// Load at most twenty series of the full schedule sharing these genres;
    /// answer `SeriesByGenresLoaded`.
    LoadSeriesByGenres(Vec<String>),
    OpenSeries(u32),
}

/// The series suggested beside the series of the page.
#[derive(Debug)]
pub struct SeriesSuggestion {
    pub series_id: u32,
    pub load_state: SuggestionLoadState,
    pub suggested_series: Vec<SeriesMainInformation>,
}

/// What the suggestions do with `message`: the suggestions after it and
/// the action.
pub open spec fn suggestion_step(
    widget: SeriesSuggestion,
    message: SuggestionMessage,
    after: SeriesSuggestion,
    a: SuggestionAction,
) -> bool {
    match message {
        SuggestionMessage::SeriesByGenresLoaded(series) => a is Nothing && after.series_id == widget.series_id
            && after.load_state == SuggestionLoadState::Loaded && after.suggested_series@ == without_parent(
            series@,
            widget.series_id,
        ),
        SuggestionMessage::SeriesPosterPressed(i) => a == SuggestionAction::OpenSeries(
            widget.suggested_series@[i as int].id,
        ) && after == widget,
    }
}

impl SeriesSuggestion {
    /// The suggestions for the series `series_id`, with the series sharing
    /// its genres to load.
    pub fn new(series_id: u32, genres: Vec<String>) -> (r: (Self, SuggestionAction))
        ensures
            r.0.series_id == series_id,
            r.0.load_state == SuggestionLoadState::Loading,
            r.0.suggested_series@.len() == 0,
            r.1 == SuggestionAction::LoadSeriesByGenres(genres),
    {
        (
            Self { series_id, load_state: SuggestionLoadState::Loading, suggested_series: Vec::new() },
            SuggestionAction::LoadSeriesByGenres(genres),
        )
    }

    pub fn update(&mut self, message: SuggestionMessage) -> (a: SuggestionAction)
        requires
            message matches SuggestionMessage::SeriesPosterPressed(i) ==> i < old(self).suggested_series@.len(),
        ensures
            suggestion_step(*old(self), message, *final(self), a),
    {
        match message {
            SuggestionMessage::SeriesByGenresLoaded(series) => {
                self.load_state = SuggestionLoadState::Loaded;
                let mut series = series;
                remove_parent(&mut series, self.series_id);
                self.suggested_series = series;
                SuggestionAction::Nothing
            },
            SuggestionMessage::SeriesPosterPressed(index) => SuggestionAction::OpenSeries(
                self.suggested_series[index].id,
            ),
        }
    }

    /// Whether the suggestions part shows posters: loaded, with at least one
    /// series.
    pub fn shows_posters(&self) -> (b: bool)
        ensures
            b == (self.load_state == SuggestionLoadState::Loaded && self.suggested_series@.len() > 0),
    {
        self.load_state == SuggestionLoadState::Loaded && self.suggested_series.len() > 0
    }
}

#[derive(Debug)]
pub enum Message {
    SeriesImageLoaded(Option<Vec<u8>>),
    SeriesBackgroundLoaded(Option<Vec<u8>>),
    Seasons(SeasonsMessage),
    PeopleWidget(PeopleMessage),
    SeriesSuggestion(SuggestionMessage),
    TrackSeries,
    UntrackSeries,
}

/// What the caller has to do after the page handled a message.
#[derive(Debug)]
pub enum Action {
    Nothing,
    /// Mark the series as tracked in the database, adding it under this
    /// name when it is not there.
    MarkTracked { series_id: u32, series_name: String },
    /// Mark the series as untracked in the database, when it is there.
    MarkUntracked(u32),
    /// Make a blurred thumbnail of the poster just loaded, shown in place of
    /// the background until the background arrives.
    BlurPoster,
    Seasons(SeasonsAction),
    People(PeopleAction),
    Suggestion(SuggestionAction),
}

/// The message of the tracking button of a series page: untrack the series
/// when it is tracked, else track it. Whether it is tracked is read from the
/// database by the caller.
pub fn tracking_button(is_tracked: bool) -> (m: Message)
    ensures
        is_tracked ==> m is UntrackSeries,
        !is_tracked ==> m is TrackSeries,
{
    if is_tracked {
        Message::UntrackSeries
    } else {
        Message::TrackSeries
    }
}

/// A series page.
#[derive(Debug)]
pub struct Series {
    pub series_id: u32,
    pub series_information: SeriesMainInformation,
    pub series_image: Option<Vec<u8>>,
    pub series_background: Option<Vec<u8>>,
    pub seasons: Seasons,
    pub people_widget: PeopleWidget,
    pub series_suggestion_widget: SeriesSuggestion,
}

/// What a new series page asks for.
#[derive(Debug)]
pub struct SeriesLoading {
    /// Load the poster of the series from this address, when it has one.
    pub image: Option<String>,
    /// Load the recent banner of the series with this id.
    pub background_of: u32,
    /// Load the episode list of the series with this id.
    pub episode_list_of: u32,
    pub people: PeopleAction,
    pub suggestion: SuggestionAction,
}

impl Series {
    /// The page of a series, with what it needs loaded.
    pub fn new(series_information: SeriesMainInformation) -> (r: (Self, SeriesLoading))
        ensures
            r.0.series_id == series_information.id,
            r.0.series_information == series_information,
            r.0.series_image is None,
            r.0.series_background is None,
            r.0.seasons.series_id == series_information.id,
            r.0.seasons.series_name == series_information.name,
            r.0.seasons.episode_list is None,
            r.0.people_widget.series_id == series_information.id,
            r.0.series_suggestion_widget.series_id == series_information.id,
            r.1.image == series_information.image,
            r.1.background_of == series_information.id,
            r.1.episode_list_of == series_information.id,
            r.1.people == PeopleAction::Cast(CastAction::LoadCast(series_information.id)),
            r.1.suggestion matches SuggestionAction::LoadSeriesByGenres(g) && g@ == series_information.genres@,
    {
        let series_id = series_information.id;
        let (people_widget, people_action) = PeopleWidget::new(series_id);
        let seasons = Seasons::new(series_id, series_information.name.clone());
        let genres = crate::series_information::duplicate_strings(&series_information.genres);
        let (series_suggestion_widget, suggestion_action) = SeriesSuggestion::new(series_id, genres);
        let image = crate::series_information::duplicate_option(&series_information.image);
        (
            Self {
                series_id,
                series_information,
                series_image: None,
                series_background: None,
                seasons,
                people_widget,
                series_suggestion_widget,
            },
            SeriesLoading {
                image,
                background_of: series_id,
                episode_list_of: series_id,
                people: people_action,
                suggestion: suggestion_action,
            },
        )
    }

    pub fn get_series_main_information(&self) -> (r: &SeriesMainInformation)
        ensures
            *r == self.series_information,
    {
        &self.series_information
    }

    pub fn update(&mut self, message: Message) -> (a: Action)
        requires
            message matches Message::Seasons(SeasonsMessage::Season(i, _)) ==> i < old(self).seasons.seasons@.len()
                && old(self).seasons.episode_list is Some,
            message matches Message::PeopleWidget(PeopleMessage::CastWidget(CastMessage::Cast(i, _))) ==> i < old(
                self,
            ).people_widget.cast_widget.casts@.len(),
            message matches Message::SeriesSuggestion(SuggestionMessage::SeriesPosterPressed(i)) ==> i < old(
                self,
            ).series_suggestion_widget.suggested_series@.len(),
        ensures
            final(self).series_id == old(self).series_id,
            final(self).series_information == old(self).series_information,
            message matches Message::SeriesImageLoaded(image) ==> final(self).series_image == image && (if image is Some
                && old(self).series_background is None {
                a is BlurPoster
            } else {
                a is Nothing
            }),
            message matches Message::SeriesBackgroundLoaded(b) ==> a is Nothing && final(self).series_background == b,
            message is TrackSeries ==> a == (Action::MarkTracked {
                series_id: old(self).series_information.id,
                series_name: old(self).series_information.name,
            }),
            message is UntrackSeries ==> a == Action::MarkUntracked(old(self).series_information.id),
            match message {
                Message::Seasons(m) => (a matches Action::Seasons(x) && seasons_step(
                    old(self).seasons,
                    m,
                    final(self).seasons,
                    x,
                )) && *final(self) == Series { seasons: final(self).seasons, ..*old(self) },
                Message::PeopleWidget(m) => (a matches Action::People(x) && people_step(
                    old(self).people_widget,
                    m,
                    final(self).people_widget,
                    x,
                )) && *final(self) == Series { people_widget: final(self).people_widget, ..*old(self) },
                Message::SeriesSuggestion(m) => (a matches Action::Suggestion(x) && suggestion_step(
                    old(self).series_suggestion_widget,
                    m,
                    final(self).series_suggestion_widget,
                    x,
                )) && *final(self) == Series { series_suggestion_widget: final(self).series_suggestion_widget, ..*old(self) },
                Message::SeriesImageLoaded(image) => *final(self) == Series { series_image: image, ..*old(self) },
                Message::SeriesBackgroundLoaded(b) => *final(self) == Series { series_background: b, ..*old(self) },
                Message::TrackSeries => *final(self) == *old(self),
                Message::UntrackSeries => *final(self) == *old(self),
            },
    {
        match message {
            Message::SeriesImageLoaded(image) => {
                let blur = image.is_some() && self.series_background.is_none();
                self.series_image = image;
                if blur {
                    Action::BlurPoster
                } else {
                    Action::Nothing
                }
            },
            Message::SeriesBackgroundLoaded(background) => {
                self.series_background = background;
                Action::Nothing
            },
            Message::Seasons(message) => Action::Seasons(self.seasons.update(message)),
            Message::PeopleWidget(message) => Action::People(self.people_widget.update(message)),
            Message::SeriesSuggestion(message) => Action::Suggestion(self.series_suggestion_widget.update(message)),
            Message::TrackSeries => Action::MarkTracked {
                series_id: self.series_information.id,
                series_name: self.series_information.name.clone(),
            },
            Message::UntrackSeries => Action::MarkUntracked(self.series_information.id),
        }
    }
}

} // verus!
