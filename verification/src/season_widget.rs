//! The seasons part of a series page: one row per season with its tracking
//! checkbox, its progress and, once expanded, its episodes.

use vstd::prelude::*;

use crate::episodes::{
    distinct_seasons, release_time_of, is_upcoming, Episode, EpisodeList, TotalEpisodes, season_count,
    released_season_count,
};
use crate::helpers::{decimal, push_decimal, push_decimal_usize};

verus! {

/// What adding the episodes of a season to the database did.
#[derive(Debug, Clone, Copy, PartialEq, Eq, Structural)]
pub enum AddResult {
    /// Every episode was already there.
    NothingAdded,
    /// At least one episode was added.
    Added,
}

#[derive(Debug, Clone, Copy, PartialEq, Eq, Structural)]
pub enum Message {
    CheckboxPressed,
    TrackCommandComplete(AddResult),
    Expand,
}

/// What the caller has to do after a season handled a message.
#[derive(Debug)]
pub enum Action {
    Nothing,
    /// Mark the episodes `1..=last_episode` of the season as watched, adding
    /// the series to the database if it is not there; answer
    /// `TrackCommandComplete`.
    AddEpisodes { series_id: u32, series_name: String, season_number: u32, last_episode: u32 },
    /// Remove the season from the series in the database.
    RemoveSeason { series_id: u32, season_number: u32 },
}

/// What is shown below the row of a season.
#[derive(Debug, Clone, Copy, PartialEq, Eq, Structural)]
pub enum EpisodesView {
    /// The season is folded.
    Hidden,
    /// The season is expanded and its episodes are not there yet.
    Loading,
    /// The season is expanded and shows its episodes.
    Shown,
}

/// A season of a series, as a row of the seasons part.
#[derive(Debug)]
pub struct Season {
    pub index: usize,
    pub series_id: u32,
    pub series_name: String,
    pub season_number: u32,
    pub total_episodes: TotalEpisodes,
    pub episodes: Vec<Episode>,
    pub is_expanded: bool,
}

/// `Season <number>`.
pub open spec fn season_name_text(season_number: nat) -> Seq<char> {
    "Season "@ + decimal(season_number)
}

/// `<watched>/<all>`.
pub open spec fn progress_text(watched: nat, all: nat) -> Seq<char> {
    decimal(watched) + "/"@ + decimal(all)
}

/// What the seasons part does with `message`: the part after it and the
/// action.
pub open spec fn seasons_step(seasons: Seasons, message: SeasonsMessage, after: Seasons, a: Action) -> bool {
    &&& after.series_id == seasons.series_id
    &&& after.series_name == seasons.series_name
    &&& match message {
        SeasonsMessage::EpisodeListLoaded(list, now) => a is Nothing && after.episode_list == Some(list)
            && seasons_match_list(after.seasons@, seasons.series_id, seasons.series_name, list, now),
        SeasonsMessage::Season(i, m) => {
            &&& after.episode_list == seasons.episode_list
            &&& after.seasons@.len() == seasons.seasons@.len()
            &&& forall|j: int| 0 <= j < seasons.seasons@.len() && j != i ==> after.seasons@[j] == seasons.seasons@[j]
            &&& seasons.episode_list matches Some(list) && season_step(
                seasons.seasons@[i as int],
                m,
                list,
                after.seasons@[i as int],
                a,
            )
        },
    }
}

/// What a season row does with `message`: the row after it and the action;
/// the episodes shown when it is expanded come from `episode_list`.
pub open spec fn season_step(season: Season, message: Message, episode_list: EpisodeList, after: Season, a: Action) -> bool {
    match message {
        Message::CheckboxPressed => after == season && a == (Action::AddEpisodes {
            series_id: season.series_id,
            series_name: season.series_name,
            season_number: season.season_number,
            last_episode: season.total_episodes.all_episodes as u32,
        }),
        Message::Expand => a is Nothing && if season.episodes@.len() == 0 {
            after.episodes@ == episode_list.episodes@.filter(|e: Episode| e.season == season.season_number) && after
                == Season { episodes: after.episodes, is_expanded: !season.is_expanded, ..season }
        } else {
            after == Season { is_expanded: !season.is_expanded, ..season }
        },
        Message::TrackCommandComplete(AddResult::NothingAdded) => after == season && a == (Action::RemoveSeason {
            series_id: season.series_id,
            season_number: season.season_number,
        }),
        Message::TrackCommandComplete(AddResult::Added) => after == season && a is Nothing,
    }
}

impl Season {
    /// The season `season_number` of the series, with its episode counts at
    /// `now`.
    pub fn new(
        index: usize,
        series_id: u32,
        episode_list: &EpisodeList,
        series_name: String,
        season_number: u32,
        now: i64,
    ) -> (s: Self)
        ensures
            s.index == index,
            s.series_id == series_id,
            s.series_name == series_name,
            s.season_number == season_number,
            s.total_episodes.all_episodes == season_count(episode_list.episodes@, season_number),
            s.total_episodes.all_watchable_episodes == released_season_count(episode_list.episodes@, season_number, now),
            s.episodes@.len() == 0,
            !s.is_expanded,
    {
        let total_episodes = episode_list.get_season_total_episodes(season_number, now);
        Self {
            index,
            series_id,
            series_name,
            season_number,
            total_episodes,
            episodes: Vec::new(),
            is_expanded: false,
        }
    }

    /// Handles a message; the episodes shown when the season is expanded
    /// come from `episode_list`.
    pub fn update(&mut self, message: Message, episode_list: &EpisodeList) -> (a: Action)
        ensures
            season_step(*old(self), message, *episode_list, *final(self), a),
    {
        match message {
            Message::CheckboxPressed => Action::AddEpisodes {
                series_id: self.series_id,
                series_name: self.series_name.clone(),
                season_number: self.season_number,
                last_episode: self.total_episodes.all_episodes as u32,
            },
            Message::Expand => {
                self.is_expanded = !self.is_expanded;
                if self.episodes.len() == 0 {
                    self.episodes = season_episodes(episode_list, self.season_number);
                }
                Action::Nothing
            },
            Message::TrackCommandComplete(AddResult::NothingAdded) => Action::RemoveSeason {
                series_id: self.series_id,
                season_number: self.season_number,
            },
            Message::TrackCommandComplete(AddResult::Added) => Action::Nothing,
        }
    }

    /// Whether the tracking checkbox is ticked, given how many episodes of
    /// the season the database holds: all released episodes are watched,
    /// and there is at least one.
    pub fn is_checked(&self, tracked_episodes: usize) -> (b: bool)
        ensures
            b == (self.total_episodes.all_watchable_episodes == tracked_episodes && tracked_episodes != 0),
    {
        self.total_episodes.get_all_watchable_episodes() == tracked_episodes && tracked_episodes != 0
    }

    /// The name of the row.
    pub fn season_name(&self) -> (s: String)
        ensures
            s@ == season_name_text(self.season_number as nat),
    {
        let mut s = String::from_str("Season ");
        push_decimal(&mut s, self.season_number);
        proof {
            reveal_strlit("Season ");
        }
        s
    }

    /// The progress text of the row, given how many episodes of the season
    /// the database holds.
    pub fn episodes_progress(&self, tracked_episodes: usize) -> (s: String)
        ensures
            s@ == progress_text(tracked_episodes as nat, self.total_episodes.all_episodes as nat),
    {
        let mut s = String::new();
        push_decimal_usize(&mut s, tracked_episodes);
        s.append("/");
        push_decimal_usize(&mut s, self.total_episodes.all_episodes);
        proof {
            reveal_strlit("/");
            assert(s@ =~= progress_text(tracked_episodes as nat, self.total_episodes.all_episodes as nat));
        }
        s
    }

    /// What is shown below the row.
    pub fn episodes_view(&self) -> (v: EpisodesView)
        ensures
            v == (if !self.is_expanded {
                EpisodesView::Hidden
            } else if self.episodes@.len() == 0 {
                EpisodesView::Loading
            } else {
                EpisodesView::Shown
            }),
    {
        if !self.is_expanded {
            EpisodesView::Hidden
        } else if self.episodes.len() == 0 {
            EpisodesView::Loading
        } else {
            EpisodesView::Shown
        }
    }
}

/// Copies of the episodes of `season`, in order.
pub fn season_episodes(episode_list: &EpisodeList, season: u32) -> (r: Vec<Episode>)
    ensures
        r@ == episode_list.episodes@.filter(|e: Episode| e.season == season),
{
    let ghost pred = |e: Episode| e.season == season;
    let mut r: Vec<Episode> = Vec::new();
    let mut i: usize = 0;
    while i < episode_list.episodes.len()
        invariant
            i <= episode_list.episodes@.len(),
            pred == (|e: Episode| e.season == season),
            r@ == episode_list.episodes@.subrange(0, i as int).filter(pred),
        decreases episode_list.episodes@.len() - i,
    {
        proof {
            let prefix = episode_list.episodes@.subrange(0, i + 1);
            assert(prefix.drop_last() =~= episode_list.episodes@.subrange(0, i as int));
            assert(prefix.last() == episode_list.episodes@[i as int]);
            reveal(Seq::filter);
        }
        if episode_list.episodes[i].season == season {
            r.push(episode_list.episodes[i].duplicate());
        }
        i = i + 1;
    }
    proof {
        assert(episode_list.episodes@.subrange(0, i as int) =~= episode_list.episodes@);
    }
    r
}

#[derive(Debug)]
pub enum SeasonsMessage {
    /// A message for the season at this position.
    Season(usize, Message),
    /// The episode list of the series arrived, at the moment `now` in
    /// seconds since the Unix epoch.
    EpisodeListLoaded(EpisodeList, i64),
}

/// What the seasons part shows.
#[derive(Debug, Clone, Copy, PartialEq, Eq, Structural)]
pub enum SeasonsView {
    /// The episode list is awaited.
    Loading,
    /// The series has no seasons.
    NoSeasons,
    /// The seasons rows.
    Seasons,
}

/// The seasons part of a series page.
#[derive(Debug)]
pub struct Seasons {
    pub series_name: String,
    pub series_id: u32,
    pub episode_list: Option<EpisodeList>,
    pub seasons: Vec<Season>,
}

/// The seasons built from an episode list: one per season number, in order.
pub open spec fn seasons_match_list(
    seasons: Seq<Season>,
    series_id: u32,
    series_name: String,
    episode_list: EpisodeList,
    now: i64,
) -> bool {
    let numbers = distinct_seasons(episode_list.episodes@);
    &&& seasons.len() == numbers.len()
    &&& forall|i: int| 0 <= i < seasons.len() ==> {
        &&& (#[trigger] seasons[i]).index == i
        &&& seasons[i].series_id == series_id
        &&& seasons[i].series_name == series_name
        &&& seasons[i].season_number == numbers[i]
        &&& seasons[i].total_episodes.all_episodes == season_count(episode_list.episodes@, numbers[i])
        &&& seasons[i].total_episodes.all_watchable_episodes == released_season_count(
            episode_list.episodes@,
            numbers[i],
            now,
        )
        &&& seasons[i].episodes@.len() == 0
        &&& !seasons[i].is_expanded
    }
}

impl Seasons {
    /// The seasons part, waiting for the episode list of the series.
    pub fn new(series_id: u32, series_name: String) -> (s: Self)
        ensures
            s.series_id == series_id,
            s.series_name == series_name,
            s.episode_list is None,
            s.seasons@.len() == 0,
    {
        Self { series_name, series_id, episode_list: None, seasons: Vec::new() }
    }

    /// The next episode of the series to air after `now`, with its release
    /// time, once the episode list is there.
    pub fn get_next_episode_and_release_time(&self, now: i64) -> (r: Option<(&Episode, i64)>)
        ensures
            match self.episode_list {
                None => r is None,
                Some(list) => match r {
                    Some((episode, time)) => exists|i: int|
                        0 <= i < list.episodes@.len() && list.episodes@[i] == *episode && release_time_of(*episode)
                            == Some(time) && time > now && forall|j: int|
                            0 <= j < i ==> !is_upcoming(#[trigger] list.episodes@[j], now),
                    None => forall|j: int| 0 <= j < list.episodes@.len() ==> !is_upcoming(#[trigger] list.episodes@[j], now),
                },
            },
    {
        match &self.episode_list {
            Some(list) => match list.get_next_episode_to_air_and_time(now) {
                Some((i, time)) => Some((&list.episodes[i], time)),
                None => None,
            },
            None => None,
        }
    }

    pub fn update(&mut self, message: SeasonsMessage) -> (a: Action)
        requires
            message matches SeasonsMessage::Season(i, _) ==> i < old(self).seasons@.len() && old(self).episode_list is Some,
        ensures
            seasons_step(*old(self), message, *final(self), a),
    {
        match message {
            SeasonsMessage::Season(index, message) => {
                let mut seasons: Vec<Season> = Vec::new();
                std::mem::swap(&mut seasons, &mut self.seasons);
                let action = match &self.episode_list {
                    Some(list) => {
                        let mut season = seasons.remove(index);
                        let action = season.update(message, list);
                        seasons.insert(index, season);
                        action
                    },
                    None => Action::Nothing,
                };
                proof {
                    assert forall|j: int| 0 <= j < old(self).seasons@.len() && j != index implies seasons@[j]
                        == old(self).seasons@[j] by {
                    }
                }
                self.seasons = seasons;
                action
            },
            SeasonsMessage::EpisodeListLoaded(episode_list, now) => {
                let season_numbers = episode_list.get_season_numbers();
                let mut seasons: Vec<Season> = Vec::new();
                let mut i: usize = 0;
                while i < season_numbers.len()
                    invariant
                        i <= season_numbers@.len(),
                        season_numbers@ == distinct_seasons(episode_list.episodes@),
                        seasons@.len() == i,
                        forall|k: int| 0 <= k < i ==> {
                            &&& (#[trigger] seasons@[k]).index == k
                            &&& seasons@[k].series_id == self.series_id
                            &&& seasons@[k].series_name == self.series_name
                            &&& seasons@[k].season_number == season_numbers@[k]
                            &&& seasons@[k].total_episodes.all_episodes == season_count(
                                episode_list.episodes@,
                                season_numbers@[k],
                            )
                            &&& seasons@[k].total_episodes.all_watchable_episodes == released_season_count(
                                episode_list.episodes@,
                                season_numbers@[k],
                                now,
                            )
                            &&& seasons@[k].episodes@.len() == 0
                            &&& !seasons@[k].is_expanded
                        },
                    decreases season_numbers@.len() - i,
                {
                    let season = Season::new(
                        i,
                        self.series_id,
                        &episode_list,
                        self.series_name.clone(),
                        season_numbers[i],
                        now,
                    );
                    seasons.push(season);
                    i = i + 1;
                }
                self.seasons = seasons;
                self.episode_list = Some(episode_list);
                Action::Nothing
            },
        }
    }

    /// What the seasons part shows.
    pub fn view_state(&self) -> (v: SeasonsView)
        ensures
            v == (if self.episode_list is None {
                SeasonsView::Loading
            } else if self.seasons@.len() == 0 {
                SeasonsView::NoSeasons
            } else {
                SeasonsView::Seasons
            }),
    {
        if self.episode_list.is_none() {
            SeasonsView::Loading
        } else if self.seasons.len() == 0 {
            SeasonsView::NoSeasons
        } else {
            SeasonsView::Seasons
        }
    }
}

} // verus!
