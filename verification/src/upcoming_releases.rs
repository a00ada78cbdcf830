//! The upcoming releases of the "My Shows" tab: the tracked series with an
//! episode to be released, soonest first, each with the time left.

use vstd::prelude::*;

use crate::episodes::{
    is_first_upcoming, is_upcoming, release_key, release_time_of, sort_by_release_time, sorted_by_release_time, Episode,
    Timed,
};
use crate::season_widget::Seasons;
use crate::name_order::keeps_order_of_equals;
use crate::helpers::time::{minutes_text, plural_text, split_minutes, time_text, unit_seconds, NaiveTime};
use crate::helpers::{season_episode_str_gen, season_episode_text};
use crate::series_information::SeriesMainInformation;
use crate::tab_searching::{is_shown, matched_ids, update_matches};
use crate::watchlist_tab::is_shown_spec;

verus! {

/// A tracked series with its next episode and the moment it is released.
#[derive(Debug)]
pub struct UpcomingPoster {
    pub series: SeriesMainInformation,
    pub episode: Episode,
    /// In seconds since the Unix epoch.
    pub release_time: i64,
}

impl UpcomingPoster {
    pub fn get_series_info(&self) -> (r: &SeriesMainInformation)
        ensures
            *r == self.series,
    {
        &self.series
    }

    /// The moment the episode is released, in seconds since the Unix epoch.
    pub fn get_episode_release_time(&self) -> (t: i64)
        ensures
            t == self.release_time,
    {
        self.release_time
    }
}

impl Timed for UpcomingPoster {
    open spec fn time_of(&self) -> i64 {
        self.release_time
    }

    fn time(&self) -> (t: i64) {
        self.release_time
    }
}

/// The whole minutes from `now` to `release`, rounded toward zero.
pub open spec fn remaining_minutes(release: i64, now: i64) -> int {
    let seconds = release - now;
    if seconds >= 0 {
        seconds / 60
    } else {
        -((-seconds) / 60)
    }
}

/// The whole minutes from `now` to `release` (see [`remaining_minutes`]).
pub fn remaining_release_minutes(release: i64, now: i64) -> (m: i64)
    requires
        i64::MIN <= release - now <= i64::MAX,
    ensures
        m == remaining_minutes(release, now),
{
    let seconds: i128 = (release - now) as i128;
    if seconds >= 0 {
        (seconds / 60) as i64
    } else {
        (-((-seconds) / 60)) as i64
    }
}

/// The minutes left as the time splitting takes them: truncated to 32 bits.
pub open spec fn minutes_as_u32(minutes: int) -> nat {
    (minutes as u32) as nat
}

/// The largest part of the time left before a release, with its unit, or
/// `None` when less than a minute is left ("Now" is shown).
pub fn release_countdown(release: i64, now: i64) -> (r: Option<(u32, String)>)
    requires
        i64::MIN <= release - now <= i64::MAX,
    ensures
        split_minutes(minutes_as_u32(remaining_minutes(release, now))).len() == 0 ==> r is None,
        split_minutes(minutes_as_u32(remaining_minutes(release, now))).len() > 0 ==> (r matches Some(p)
            && p.0 == split_minutes(minutes_as_u32(remaining_minutes(release, now)))[0].time_value && p.1@
            == plural_text(
            split_minutes(minutes_as_u32(remaining_minutes(release, now)))[0].time_value as nat,
            split_minutes(minutes_as_u32(remaining_minutes(release, now)))[0].time_kind.name(),
        )),
{
    let minutes = remaining_release_minutes(release, now);
    let truncated: u32 = #[verifier::truncate] (minutes as u32);
    NaiveTime::new(truncated).largest_part()
}

/// `<SxxEyy> in <time left>`: the next episode of a series and the time
/// left before its release.
pub open spec fn next_episode_line(season: nat, number: nat, release: i64, now: i64) -> Seq<char> {
    season_episode_text(season, number) + " in "@ + time_text(minutes_as_u32(remaining_minutes(release, now)))
}

/// The line telling when the next episode of a series airs, shown when the
/// series has a next episode whose release time is known.
pub fn next_episode_to_air_widget(next_episode_to_air: Option<&Episode>, now: i64) -> (s: Option<String>)
    requires
        next_episode_to_air matches Some(e) ==> (release_time_of(*e) matches Some(t) ==> e.number is Some
            && i64::MIN <= t - now <= i64::MAX),
    ensures
        match next_episode_to_air {
            Some(e) => match release_time_of(*e) {
                Some(t) => s matches Some(line) && line@ == next_episode_line(
                    e.season as nat,
                    e.number->0 as nat,
                    t,
                    now,
                ),
                None => s is None,
            },
            None => s is None,
        },
{
    let episode = match next_episode_to_air {
        Some(e) => e,
        None => return None,
    };
    let release = match episode.release_time() {
        Some(t) => t,
        None => return None,
    };
    let number = match episode.number {
        Some(n) => n,
        None => 0,
    };
    let minutes = remaining_release_minutes(release, now);
    let truncated: u32 = #[verifier::truncate] (minutes as u32);
    let mut line = season_episode_str_gen(episode.season, number);
    line.append(" in ");
    let left = minutes_text(truncated);
    line.append(left.as_str());
    proof {
        reveal_strlit(" in ");
    }
    Some(line)
}

/// The first episode of the list to be released after `now`, with its
/// release time, if any.
pub open spec fn next_upcoming(episodes: Seq<Episode>, now: i64) -> Option<(Episode, i64)> {
    if exists|i: int| is_first_upcoming(episodes, now, i) {
        let e = episodes[choose|i: int| is_first_upcoming(episodes, now, i)];
        Some((e, release_time_of(e)->0))
    } else {
        None
    }
}

/// The line telling when the next episode of the series of a page airs:
/// shown once the episode list is there, when an episode is to air after
/// `now` and it has a number; `None` when it is not shown.
pub fn next_episode_line_of(seasons: &Seasons, now: i64) -> (s: Option<String>)
    ensures
        match seasons.episode_list {
            None => s is None,
            Some(list) => match next_upcoming(list.episodes@, now) {
                None => s is None,
                Some((e, t)) => if e.number is Some && t - now <= i64::MAX {
                    s matches Some(line) && line@ == next_episode_line(e.season as nat, e.number->0 as nat, t, now)
                } else {
                    s is None
                },
            },
        },
{
    let next = seasons.get_next_episode_and_release_time(now);
    proof {
        if seasons.episode_list is Some {
            let e = seasons.episode_list->0.episodes@;
            match next {
                Some((episode, time)) => {
                    let i = choose|i: int|
                        0 <= i < e.len() && e[i] == *episode && release_time_of(*episode) == Some(time) && time > now
                            && forall|j: int| 0 <= j < i ==> !is_upcoming(#[trigger] e[j], now);
                    assert(is_first_upcoming(e, now, i));
                    let c = choose|c: int| is_first_upcoming(e, now, c);
                    if c < i {
                        assert(!is_upcoming(e[c], now));
                    } else if c > i {
                        assert(!is_upcoming(e[i], now));
                    }
                },
                None => {
                    if exists|i: int| is_first_upcoming(e, now, i) {
                        let c = choose|c: int| is_first_upcoming(e, now, c);
                        assert(!is_upcoming(e[c], now));
                    }
                },
            }
        }
    }
    match next {
        Some((episode, time)) => {
            let left: i128 = (time as i128) - (now as i128);
            if episode.number.is_some() && left <= 9_223_372_036_854_775_807 {
                next_episode_to_air_widget(Some(episode), now)
            } else {
                None
            }
        },
        None => None,
    }
}

/// How often, in seconds, the releases are loaded again: every unit of the
/// largest part of the time left before the first release, or every minute
/// when less than a minute is left; never when nothing is upcoming.
pub open spec fn refresh_interval(first_release: Option<i64>, now: i64) -> Option<u64> {
    match first_release {
        None => None,
        Some(release) => {
            let parts = split_minutes(minutes_as_u32(remaining_minutes(release, now)));
            if parts.len() > 0 {
                Some(unit_seconds(parts[0].time_kind) as u64)
            } else {
                Some(60)
            }
        },
    }
}

#[derive(Debug)]
pub enum Message {
    /// The upcoming releases arrived, or could not be loaded.
    SeriesInformationReceived(Option<Vec<UpcomingPoster>>),
    /// The poster at this position was pressed.
    UpcomingPosterPressed(usize),
    /// Time to load the releases again.
    Refresh,
}

/// What the caller has to do after the widget handled a message.
#[derive(Debug)]
pub enum Action {
    Nothing,
    /// Load the upcoming releases; answer `SeriesInformationReceived`.
    LoadUpcomingReleases,
    /// Open the page of the series with this id.
    OpenSeries(u32),
}

#[derive(Debug, Clone, Copy, PartialEq, Eq, Structural)]
pub enum LoadState {
    Loading,
    Loaded,
}

/// What the widget shows.
#[derive(Debug)]
pub enum UpcomingView {
    Loading,
    /// "No Upcoming Episodes".
    Empty,
    /// "No matches found!".
    NoMatches,
    /// The positions of the posters shown, in order.
    Posters(Vec<usize>),
}

/// The upcoming releases widget.
#[derive(Debug)]
pub struct UpcomingReleases {
    pub load_state: LoadState,
    /// The releases, soonest first.
    pub upcoming_posters: Vec<UpcomingPoster>,
    pub matched_id_collection: Option<Vec<u32>>,
}

/// `SxxEyy: <episode name>`.
pub open spec fn episode_heading(season: nat, number: nat, name: Seq<char>) -> Seq<char> {
    season_episode_text(season, number) + ": "@ + name
}

/// The heading of the episode of a poster.
pub fn upcoming_episode_heading(upcoming: &UpcomingPoster) -> (s: String)
    requires
        upcoming.episode.number is Some,
    ensures
        s@ == episode_heading(
            upcoming.episode.season as nat,
            upcoming.episode.number->0 as nat,
            upcoming.episode.name@,
        ),
{
    let number = match upcoming.episode.number {
        Some(n) => n,
        None => 0,
    };
    let mut s = season_episode_str_gen(upcoming.episode.season, number);
    s.append(": ");
    s.append(upcoming.episode.name.as_str());
    proof {
        reveal_strlit(": ");
    }
    s
}

/// The series information of the posters.
pub open spec fn upcoming_series<'a>(posters: Seq<UpcomingPoster>) -> Seq<&'a SeriesMainInformation> {
    posters.map_values(|p: UpcomingPoster| &p.series)
}

/// What the widget does with `message`: the widget after it and the
/// action.
pub open spec fn upcoming_step(widget: UpcomingReleases, message: Message, after: UpcomingReleases, a: Action) -> bool {
    match message {
        Message::SeriesInformationReceived(Some(infos)) => {
            &&& a is Nothing
            &&& after.load_state == LoadState::Loaded
            &&& sorted_by_release_time(after.upcoming_posters@)
            &&& after.upcoming_posters@.to_multiset() == infos@.to_multiset()
            &&& keeps_order_of_equals(after.upcoming_posters@, infos@, release_key::<UpcomingPoster>())
            &&& after.matched_id_collection == widget.matched_id_collection
        },
        Message::SeriesInformationReceived(None) => a is Nothing && after == UpcomingReleases {
            load_state: LoadState::Loaded,
            ..widget
        },
        Message::UpcomingPosterPressed(i) => a == Action::OpenSeries(widget.upcoming_posters@[i as int].series.id)
            && after == widget,
        Message::Refresh => a is LoadUpcomingReleases && after == widget,
    }
}

impl UpcomingReleases {
    /// The widget, with the releases to load.
    pub fn new() -> (r: (Self, Action))
        ensures
            r.0.load_state == LoadState::Loading,
            r.0.upcoming_posters@.len() == 0,
            r.0.matched_id_collection is None,
            r.1 is LoadUpcomingReleases,
    {
        (
            Self { load_state: LoadState::Loading, upcoming_posters: Vec::new(), matched_id_collection: None },
            Action::LoadUpcomingReleases,
        )
    }

    /// How often the releases are loaded again, at `now`.
    pub fn subscription(&self, now: i64) -> (r: Option<u64>)
        requires
            self.upcoming_posters@.len() > 0 ==> i64::MIN <= self.upcoming_posters@[0].release_time - now <= i64::MAX,
        ensures
            r == refresh_interval(
                if self.upcoming_posters@.len() > 0 {
                    Some(self.upcoming_posters@[0].release_time)
                } else {
                    None
                },
                now,
            ),
    {
        if self.upcoming_posters.len() == 0 {
            return None;
        }
        let minutes = remaining_release_minutes(self.upcoming_posters[0].release_time, now);
        let truncated: u32 = #[verifier::truncate] (minutes as u32);
        match NaiveTime::new(truncated).get_longest_unit_duration() {
            Some(seconds) => Some(seconds as u64),
            None => Some(60),
        }
    }

    pub fn update(&mut self, message: Message) -> (a: Action)
        requires
            message matches Message::SeriesInformationReceived(infos) ==> infos is Some,
            message matches Message::UpcomingPosterPressed(i) ==> i < old(self).upcoming_posters@.len(),
        ensures
            upcoming_step(*old(self), message, *final(self), a),
    {
        match message {
            Message::SeriesInformationReceived(infos) => {
                self.load_state = LoadState::Loaded;
                match infos {
                    Some(infos) => {
                        self.upcoming_posters = sort_by_release_time(infos);
                    },
                    None => {},
                }
                Action::Nothing
            },
            Message::UpcomingPosterPressed(index) => Action::OpenSeries(self.upcoming_posters[index].series.id),
            Message::Refresh => Action::LoadUpcomingReleases,
        }
    }

    /// Filters the posters by the search term of the tab.
    pub fn update_matches(&mut self, search_term: &str)
        ensures
            final(self).upcoming_posters == old(self).upcoming_posters,
            final(self).load_state == old(self).load_state,
            search_term@.len() == 0 ==> final(self).matched_id_collection is None,
            search_term@.len() > 0 ==> (final(self).matched_id_collection matches Some(ids) && ids@ == matched_ids(
                search_term@,
                upcoming_series(old(self).upcoming_posters@),
            )),
    {
        let mut collection: Vec<&SeriesMainInformation> = Vec::new();
        let mut i: usize = 0;
        while i < self.upcoming_posters.len()
            invariant
                i <= self.upcoming_posters@.len(),
                collection@ == upcoming_series(self.upcoming_posters@.take(i as int)),
            decreases self.upcoming_posters@.len() - i,
        {
            collection.push(&self.upcoming_posters[i].series);
            proof {
                assert(collection@ =~= upcoming_series(self.upcoming_posters@.take(i + 1)));
            }
            i = i + 1;
        }
        proof {
            assert(self.upcoming_posters@.take(i as int) =~= self.upcoming_posters@);
        }
        let mut matches: Option<Vec<u32>> = None;
        update_matches(&mut matches, search_term, collection.as_slice());
        self.matched_id_collection = matches;
    }

    /// What the widget shows.
    pub fn view_state(&self) -> (v: UpcomingView)
        ensures
            self.load_state == LoadState::Loading ==> v is Loading,
            self.load_state == LoadState::Loaded && self.upcoming_posters@.len() == 0 ==> v is Empty,
            self.load_state == LoadState::Loaded && self.upcoming_posters@.len() > 0 ==> match v {
                UpcomingView::Posters(shown) => shown@.len() > 0 && (forall|k: int|
                    0 <= k < shown@.len() ==> shown@[k] < self.upcoming_posters@.len() && is_shown_spec(
                        self.matched_id_collection,
                        self.upcoming_posters@[shown@[k] as int].series.id,
                    )) && (forall|i: int|
                    0 <= i < self.upcoming_posters@.len() && is_shown_spec(
                        self.matched_id_collection,
                        #[trigger] self.upcoming_posters@[i].series.id,
                    ) ==> shown@.contains(i as usize)) && (forall|a: int, b: int|
                    0 <= a < b < shown@.len() ==> shown@[a] < shown@[b]),
                UpcomingView::NoMatches => forall|i: int|
                    0 <= i < self.upcoming_posters@.len() ==> !is_shown_spec(
                        self.matched_id_collection,
                        #[trigger] self.upcoming_posters@[i].series.id,
                    ),
                _ => false,
            },
    {
        if self.load_state == LoadState::Loading {
            return UpcomingView::Loading;
        }
        if self.upcoming_posters.len() == 0 {
            return UpcomingView::Empty;
        }
        let mut shown: Vec<usize> = Vec::new();
        let mut i: usize = 0;
        while i < self.upcoming_posters.len()
            invariant
                i <= self.upcoming_posters@.len(),
                forall|a: int, b: int| 0 <= a < b < shown@.len() ==> shown@[a] < shown@[b],
                forall|k: int| 0 <= k < shown@.len() ==> shown@[k] < i && is_shown_spec(
                    self.matched_id_collection,
                    self.upcoming_posters@[shown@[k] as int].series.id,
                ),
                forall|j: int| 0 <= j < i && is_shown_spec(
                    self.matched_id_collection,
                    #[trigger] self.upcoming_posters@[j].series.id,
                ) ==> shown@.contains(j as usize),
            decreases self.upcoming_posters@.len() - i,
        {
            if is_shown(&self.matched_id_collection, self.upcoming_posters[i].series.id) {
                let ghost old_shown = shown@;
                shown.push(i);
                proof {
                    assert forall|j: int| 0 <= j < i + 1 && is_shown_spec(
                        self.matched_id_collection,
                        #[trigger] self.upcoming_posters@[j].series.id,
                    ) implies shown@.contains(j as usize) by {
                        if j < i {
                            let k = choose|k: int| 0 <= k < old_shown.len() && old_shown[k] == j as usize;
                            assert(shown@[k] == j as usize);
                        } else {
                            assert(shown@[old_shown.len() as int] == i);
                        }
                    }
                }
            }
            i = i + 1;
        }
        if shown.len() == 0 {
            proof {
                assert forall|j: int| 0 <= j < self.upcoming_posters@.len() implies !is_shown_spec(
                    self.matched_id_collection,
                    #[trigger] self.upcoming_posters@[j].series.id,
                ) by {
                    if is_shown_spec(self.matched_id_collection, self.upcoming_posters@[j].series.id) {
                        assert(shown@.contains(j as usize));
                    }
                }
            }
            UpcomingView::NoMatches
        } else {
            UpcomingView::Posters(shown)
        }
    }
}

} // verus!
