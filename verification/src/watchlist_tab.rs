//! The watchlist: the tracked series with released episodes left to watch,
//! alphabetically, with a summary of what is left.

use vstd::prelude::*;

use crate::episodes::{released_count, EpisodeList};
use crate::helpers::time::{minutes_text, time_text};
use crate::helpers::{decimal, push_decimal, push_decimal_usize};
use crate::name_order::{keeps_order_of_equals, name_key, sort_by_name, sorted_by_name, Named};
use crate::series_information::SeriesMainInformation;
use crate::tab_searching::{is_shown, matched_ids, update_matches, Message as SearcherMessage, Searcher};

verus! {

/// Whether the series has released episodes that were not watched: the
/// number released at `now` differs from the number watched.
pub fn has_pending_episodes(watched_episodes: usize, episodes_list: &EpisodeList, now: i64) -> (b: bool)
    ensures
        b == (released_count(episodes_list.episodes@, now) != watched_episodes),
{
    episodes_list.get_total_watchable_episodes(now) != watched_episodes
}

/// The sum of the numbers.
pub open spec fn sum(values: Seq<nat>) -> nat
    decreases values.len(),
{
    if values.len() == 0 {
        0
    } else {
        sum(values.drop_last()) + values.last()
    }
}

/// The minutes needed to watch what is left of each series: the episodes not
/// watched times the runtime.
pub open spec fn minutes_left(series: Seq<(u32, u32, u32)>, watched: Seq<usize>) -> Seq<nat> {
    Seq::new(series.len(), |i: int| ((series[i].1 - watched[i]) * series[i].2) as nat)
}

/// The numbers of episodes watched, as natural numbers.
pub open spec fn as_nats(values: Seq<usize>) -> Seq<nat> {
    values.map_values(|v: usize| v as nat)
}

/// The summary above the watchlist.
#[derive(Debug)]
pub struct WatchlistSummary {
    /// `(series id, number of released episodes, runtime in minutes)` of
    /// each series.
    pub series_ids: Vec<(u32, u32, u32)>,
    /// The number of released episodes of all the series.
    pub total_episodes: usize,
}

/// The figures the summary shows.
#[derive(Debug)]
pub struct SummaryFigures {
    /// `Total Series to Watch`.
    pub series_to_watch: usize,
    /// `Total Time Required to Watch`.
    pub time_to_watch: String,
    /// The episodes watched of all the series.
    pub episodes_watched: usize,
    /// `Total Episodes to Watch`.
    pub episodes_to_watch: usize,
}

impl WatchlistSummary {
    pub fn new(total_episodes: usize, series_ids: Vec<(u32, u32, u32)>) -> (s: Self)
        ensures
            s.total_episodes == total_episodes,
            s.series_ids == series_ids,
    {
        Self { total_episodes, series_ids }
    }

    /// The figures of the summary, given how many episodes of each series
    /// (in the order of `series_ids`) the database holds as watched.
    pub fn figures(&self, watched: &[usize]) -> (f: SummaryFigures)
        requires
            watched@.len() == self.series_ids@.len(),
            forall|i: int| 0 <= i < watched@.len() ==> watched@[i] <= self.series_ids@[i].1,
            sum(minutes_left(self.series_ids@, watched@)) <= u32::MAX,
            sum(as_nats(watched@)) <= self.total_episodes,
        ensures
            f.series_to_watch == self.series_ids@.len(),
            f.time_to_watch@ == time_text(sum(minutes_left(self.series_ids@, watched@))),
            f.episodes_watched == sum(as_nats(watched@)),
            f.episodes_to_watch == self.total_episodes - sum(as_nats(watched@)),
    {
        let ghost left = minutes_left(self.series_ids@, watched@);
        let ghost counts = as_nats(watched@);
        let mut minutes: u32 = 0;
        let mut watched_total: usize = 0;
        let mut i: usize = 0;
        while i < self.series_ids.len()
            invariant
                i <= self.series_ids@.len(),
                watched@.len() == self.series_ids@.len(),
                forall|j: int| 0 <= j < watched@.len() ==> watched@[j] <= self.series_ids@[j].1,
                left == minutes_left(self.series_ids@, watched@),
                counts == as_nats(watched@),
                sum(left) <= u32::MAX,
                sum(counts) <= self.total_episodes,
                minutes == sum(left.take(i as int)),
                watched_total == sum(counts.take(i as int)),
            decreases self.series_ids@.len() - i,
        {
            proof {
                assert(left.take(i + 1).drop_last() =~= left.take(i as int));
                assert(counts.take(i + 1).drop_last() =~= counts.take(i as int));
                lemma_sum_prefix(left, i as int + 1);
                lemma_sum_prefix(counts, i as int + 1);
            }
            let (_, total, runtime) = self.series_ids[i];
            let remaining = total - watched[i] as u32;
            proof {
                assert(left[i as int] == remaining * runtime);
                assert(sum(left.take(i + 1)) == minutes + remaining * runtime);
            }
            minutes = minutes + remaining * runtime;
            watched_total = watched_total + watched[i];
            i = i + 1;
        }
        proof {
            assert(left.take(i as int) =~= left);
            assert(counts.take(i as int) =~= counts);
        }
        SummaryFigures {
            series_to_watch: self.series_ids.len(),
            time_to_watch: minutes_text(minutes),
            episodes_watched: watched_total,
            episodes_to_watch: self.total_episodes - watched_total,
        }
    }
}

/// A prefix sums to at most the whole.
pub proof fn lemma_sum_prefix(values: Seq<nat>, n: int)
    requires
        0 <= n <= values.len(),
    ensures
        sum(values.take(n)) <= sum(values),
    decreases values.len(),
{
    if n < values.len() {
        assert(values.drop_last().take(n) =~= values.take(n));
        lemma_sum_prefix(values.drop_last(), n);
    } else {
        assert(values.take(n) =~= values);
    }
}

/// A tracked series with episodes left to watch.
#[derive(Debug)]
pub struct WatchlistEntry {
    pub series: SeriesMainInformation,
    pub episode_list: EpisodeList,
    /// The number of released episodes.
    pub total_episodes: usize,
}

impl Named for WatchlistEntry {
    open spec fn name_of(&self) -> Seq<char> {
        self.series.name@
    }

    fn name(&self) -> (n: &str) {
        self.series.name.as_str()
    }
}

/// The series, in order, with released episodes left to watch at `now`,
/// each with its episode list and its number of released episodes;
/// `lists[i]` and `watched[i]` are the episode list of `series[i]` and the
/// number of its episodes watched.
pub open spec fn pending_entries(
    series: Seq<SeriesMainInformation>,
    lists: Seq<EpisodeList>,
    watched: Seq<usize>,
    now: i64,
) -> Seq<WatchlistEntry>
    decreases series.len(),
{
    if series.len() == 0 {
        Seq::empty()
    } else {
        let n = series.len() - 1;
        let before = pending_entries(series.drop_last(), lists.take(n), watched.take(n), now);
        let released = released_count(lists[n].episodes@, now);
        if released != watched[n] {
            before.push(WatchlistEntry { series: series[n], episode_list: lists[n], total_episodes: released as usize })
        } else {
            before
        }
    }
}

/// The entries of the watchlist: the series with released episodes left to
/// watch at `now` (see [`pending_entries`]).
pub fn get_series_information_and_watched_episodes(
    series_informations: Vec<SeriesMainInformation>,
    episode_lists: Vec<EpisodeList>,
    watched_episodes: &[usize],
    now: i64,
) -> (r: Vec<WatchlistEntry>)
    requires
        series_informations@.len() == episode_lists@.len(),
        series_informations@.len() == watched_episodes@.len(),
    ensures
        r@ == pending_entries(series_informations@, episode_lists@, watched_episodes@, now),
{
    let ghost all = series_informations@;
    let ghost all_lists = episode_lists@;
    let mut entries: Vec<WatchlistEntry> = Vec::new();
    let mut rest = series_informations;
    let mut rest_lists = episode_lists;
    let count = rest.len();
    let mut k: usize = 0;
    while rest.len() > 0
        invariant
            k + rest@.len() == all.len(),
            all.len() == count,
            count == all_lists.len(),
            count == watched_episodes@.len(),
            rest@ == all.subrange(k as int, all.len() as int),
            rest_lists@ == all_lists.subrange(k as int, all_lists.len() as int),
            entries@ == pending_entries(all.take(k as int), all_lists.take(k as int), watched_episodes@.take(k as int), now),
        decreases rest@.len(),
    {
        let info = rest.remove(0);
        let list = rest_lists.remove(0);
        proof {
            assert(info == all[k as int]);
            assert(list == all_lists[k as int]);
            assert(all.take(k + 1).drop_last() =~= all.take(k as int));
            assert(all_lists.take(k + 1).take(k as int) =~= all_lists.take(k as int));
            assert(watched_episodes@.take(k + 1).take(k as int) =~= watched_episodes@.take(k as int));
        }
        if has_pending_episodes(watched_episodes[k], &list, now) {
            let total = list.get_total_watchable_episodes(now);
            entries.push(WatchlistEntry { series: info, episode_list: list, total_episodes: total });
        }
        proof {
            assert(rest@ =~= all.subrange(k + 1, all.len() as int));
            assert(rest_lists@ =~= all_lists.subrange(k + 1, all_lists.len() as int));
        }
        k = k + 1;
    }
    proof {
        assert(all.take(k as int) =~= all);
        assert(all_lists.take(k as int) =~= all_lists);
        assert(watched_episodes@.take(k as int) =~= watched_episodes@);
    }
    entries
}

/// A series of the watchlist, as a poster with its progress.
#[derive(Debug)]
pub struct WatchlistPoster {
    pub index: usize,
    pub series: SeriesMainInformation,
    pub episode_list: EpisodeList,
    pub total_series_episodes: usize,
    pub show_episode_info: bool,
}

/// `<n> episodes left`.
pub open spec fn episodes_left_text(left: nat) -> Seq<char> {
    decimal(left) + " episodes left"@
}

impl WatchlistPoster {
    pub fn new(index: usize, entry: WatchlistEntry) -> (p: Self)
        ensures
            p.index == index,
            p.series == entry.series,
            p.episode_list == entry.episode_list,
            p.total_series_episodes == entry.total_episodes,
            !p.show_episode_info,
    {
        WatchlistPoster {
            index,
            series: entry.series,
            episode_list: entry.episode_list,
            total_series_episodes: entry.total_episodes,
            show_episode_info: false,
        }
    }

    /// Shows or hides the next episode to watch.
    pub fn toggle_episode_info(&mut self)
        ensures
            final(self).show_episode_info == !old(self).show_episode_info,
            final(self).index == old(self).index,
            final(self).series == old(self).series,
            final(self).episode_list == old(self).episode_list,
            final(self).total_series_episodes == old(self).total_series_episodes,
    {
        self.show_episode_info = !self.show_episode_info;
    }

    /// The label of the button that shows or hides the next episode.
    pub fn episode_info_button_text(&self) -> (s: &'static str)
        ensures
            s@ == (if self.show_episode_info { "Hide Episode Info"@ } else { "Show Episode Info"@ }),
    {
        proof {
            reveal_strlit("Hide Episode Info");
            reveal_strlit("Show Episode Info");
        }
        if self.show_episode_info {
            "Hide Episode Info"
        } else {
            "Show Episode Info"
        }
    }

    /// The text of the episodes left, given how many the database holds as
    /// watched.
    pub fn episodes_left_text(&self, watched_episodes: usize) -> (s: String)
        requires
            watched_episodes <= self.total_series_episodes,
        ensures
            s@ == episodes_left_text((self.total_series_episodes - watched_episodes) as nat),
    {
        let mut s = String::new();
        push_decimal_usize(&mut s, self.total_series_episodes - watched_episodes);
        s.append(" episodes left");
        proof {
            reveal_strlit(" episodes left");
        }
        s
    }

    /// The time needed to watch the episodes left, when the runtime of the
    /// series is known.
    pub fn time_left_text(&self, watched_episodes: usize) -> (s: Option<String>)
        requires
            watched_episodes <= self.total_series_episodes,
            self.series.average_runtime matches Some(r) ==> r * ((self.total_series_episodes - watched_episodes) as u32)
                <= u32::MAX,
        ensures
            match self.series.average_runtime {
                Some(runtime) => s matches Some(t) && t@ == time_text(
                    (runtime * ((self.total_series_episodes - watched_episodes) as u32)) as nat,
                ),
                None => s is None,
            },
    {
        match self.series.average_runtime {
            Some(runtime) => Some(minutes_text(runtime * ((self.total_series_episodes - watched_episodes) as u32))),
            None => None,
        }
    }
}

#[derive(Debug, Clone, Copy, PartialEq, Eq, Structural)]
pub enum LoadState {
    Loading,
    Loaded,
}

#[derive(Debug)]
pub enum Message {
    /// The tracked series with episodes left to watch arrived.
    SeriesInformationLoaded(Vec<WatchlistEntry>),
    /// The poster at this position asks to show or hide its next episode.
    ToggleEpisodeInfo(usize),
    Searcher(SearcherMessage),
}

/// What the watchlist shows.
#[derive(Debug)]
pub enum WatchlistView {
    Loading,
    /// No series has episodes left: "All Clear!".
    AllClear,
    /// No series matches the search: "No matches found!".
    NoMatches,
    /// The positions of the posters shown, in order.
    Posters(Vec<usize>),
}

/// The watchlist tab.
#[derive(Debug)]
pub struct WatchlistTab {
    pub load_state: LoadState,
    pub watchlist_posters: Vec<WatchlistPoster>,
    pub watchlist_summary: Option<WatchlistSummary>,
    /// The ids of the series matching the search term, when one was typed.
    pub matched_id_collection: Option<Vec<u32>>,
    pub searcher: Searcher,
}

/// The series of the posters, each with its episode list and number of
/// released episodes.
pub open spec fn poster_entries(posters: Seq<WatchlistPoster>) -> Seq<WatchlistEntry> {
    posters.map_values(
        |p: WatchlistPoster|
            WatchlistEntry { series: p.series, episode_list: p.episode_list, total_episodes: p.total_series_episodes },
    )
}

/// What the watchlist does with `message`: the watchlist after it.
pub open spec fn watchlist_step(tab: WatchlistTab, message: Message, after: WatchlistTab) -> bool {
    match message {
        Message::SeriesInformationLoaded(entries) => {
            &&& after.load_state == LoadState::Loaded
            &&& after.watchlist_summary matches Some(summary) && summary.total_episodes == total_of(entries@)
                && summary.series_ids@ == summary_rows(entries@)
            &&& sorted_by_name(poster_entries(after.watchlist_posters@))
            &&& poster_entries(after.watchlist_posters@).to_multiset() == entries@.to_multiset()
            &&& keeps_order_of_equals(poster_entries(after.watchlist_posters@), entries@, name_key::<WatchlistEntry>())
            &&& forall|i: int|
                0 <= i < after.watchlist_posters@.len() ==> (#[trigger] after.watchlist_posters@[i]).index == i
                    && !after.watchlist_posters@[i].show_episode_info
            &&& after.matched_id_collection == tab.matched_id_collection
            &&& after.searcher == tab.searcher
        },
        Message::ToggleEpisodeInfo(i) => {
            &&& after.watchlist_posters@.len() == tab.watchlist_posters@.len()
            &&& after.watchlist_posters@[i as int] == WatchlistPoster {
                show_episode_info: !tab.watchlist_posters@[i as int].show_episode_info,
                ..tab.watchlist_posters@[i as int]
            }
            &&& forall|j: int|
                0 <= j < tab.watchlist_posters@.len() && j != i ==> #[trigger] after.watchlist_posters@[j]
                    == tab.watchlist_posters@[j]
            &&& after == WatchlistTab { watchlist_posters: after.watchlist_posters, ..tab }
        },
        Message::Searcher(SearcherMessage::SearchTermChanged(term)) => {
            &&& after.searcher.term() == term@
            &&& after.searcher.placeholder_text() == tab.searcher.placeholder_text()
            &&& after.watchlist_posters == tab.watchlist_posters
            &&& after.load_state == tab.load_state
            &&& after.watchlist_summary == tab.watchlist_summary
            &&& if term@.len() == 0 {
                after.matched_id_collection is None
            } else {
                after.matched_id_collection matches Some(ids) && ids@ == matched_ids(
                    term@,
                    poster_series(tab.watchlist_posters@),
                )
            }
        },
    }
}

/// The sum of the numbers of released episodes.
pub open spec fn total_of(entries: Seq<WatchlistEntry>) -> nat
    decreases entries.len(),
{
    if entries.len() == 0 {
        0
    } else {
        total_of(entries.drop_last()) + entries.last().total_episodes as nat
    }
}

/// `(id, released episodes, runtime or 0)` of each series.
pub open spec fn summary_rows(entries: Seq<WatchlistEntry>) -> Seq<(u32, u32, u32)> {
    entries.map_values(
        |e: WatchlistEntry|
            (
                e.series.id,
                e.total_episodes as u32,
                match e.series.average_runtime {
                    Some(r) => r,
                    None => 0u32,
                },
            ),
    )
}

/// The summary made from loaded series, stated on the series: one row per
/// series, in their order, holding its id, its number of released episodes
/// and its average runtime in minutes, or 0 when the runtime is unknown (the
/// time left on a series is its unwatched episodes times that runtime).
pub proof fn lemma_summary_of_loaded(tab: WatchlistTab, entries: Vec<WatchlistEntry>, after: WatchlistTab)
    requires
        watchlist_step(tab, Message::SeriesInformationLoaded(entries), after),
    ensures
        after.watchlist_summary is Some,
        ({
            let rows = after.watchlist_summary->0.series_ids@;
            &&& rows.len() == entries@.len()
            &&& forall|i: int|
                0 <= i < entries@.len() ==> {
                    &&& (#[trigger] rows[i]).0 == entries@[i].series.id
                    &&& rows[i].1 == entries@[i].total_episodes as u32
                    &&& (entries@[i].series.average_runtime matches Some(r) ==> rows[i].2 == r)
                    &&& (entries@[i].series.average_runtime is None ==> rows[i].2 == 0)
                }
        }),
{
}

/// The series information of the posters.
pub open spec fn poster_series<'a>(posters: Seq<WatchlistPoster>) -> Seq<&'a SeriesMainInformation> {
    posters.map_values(|p: WatchlistPoster| &p.series)
}

impl WatchlistTab {
    pub fn new() -> (t: Self)
        ensures
            t.load_state == LoadState::Loading,
            t.watchlist_posters@.len() == 0,
            t.watchlist_summary is None,
            t.matched_id_collection is None,
            t.searcher.term() == Seq::<char>::empty(),
            t.searcher.placeholder_text() == "Search Watchlist"@,
    {
        proof {
            reveal_strlit("Search Watchlist");
        }
        Self {
            load_state: LoadState::Loading,
            watchlist_posters: Vec::new(),
            watchlist_summary: None,
            matched_id_collection: None,
            searcher: Searcher::new(String::from_str("Search Watchlist")),
        }
    }

    pub fn update(&mut self, message: Message)
        requires
            message matches Message::SeriesInformationLoaded(entries) ==> total_of(entries@) <= usize::MAX,
            message matches Message::ToggleEpisodeInfo(i) ==> i < old(self).watchlist_posters@.len(),
        ensures
            watchlist_step(*old(self), message, *final(self)),
    {
        match message {
            Message::SeriesInformationLoaded(entries) => {
                self.load_state = LoadState::Loaded;
                let mut total: usize = 0;
                let mut rows: Vec<(u32, u32, u32)> = Vec::new();
                let mut i: usize = 0;
                while i < entries.len()
                    invariant
                        i <= entries@.len(),
                        total_of(entries@) <= usize::MAX,
                        total == total_of(entries@.take(i as int)),
                        rows@ == summary_rows(entries@.take(i as int)),
                    decreases entries@.len() - i,
                {
                    proof {
                        assert(entries@.take(i + 1).drop_last() =~= entries@.take(i as int));
                        lemma_total_prefix(entries@, i as int + 1);
                    }
                    let entry = &entries[i];
                    let runtime = match entry.series.average_runtime {
                        Some(r) => r,
                        None => 0,
                    };
                    total = total + entry.total_episodes;
                    rows.push((entry.series.id, entry.total_episodes as u32, runtime));
                    proof {
                        assert(rows@ =~= summary_rows(entries@.take(i + 1)));
                    }
                    i = i + 1;
                }
                proof {
                    assert(entries@.take(i as int) =~= entries@);
                }
                self.watchlist_summary = Some(WatchlistSummary::new(total, rows));
                let sorted = sort_by_name(entries);
                proof {
                    sorted@.to_multiset_ensures();
                    entries@.to_multiset_ensures();
                    assert(sorted@.len() == entries@.len());
                }
                let mut posters: Vec<WatchlistPoster> = Vec::new();
                let mut rest = sorted;
                let ghost all = rest@;
                let count = rest.len();
                let mut k: usize = 0;
                while rest.len() > 0
                    invariant
                        k + rest@.len() == all.len(),
                        all.len() == count,
                        rest@ == all.subrange(k as int, all.len() as int),
                        sorted_by_name(all),
                        posters@.len() == k,
                        forall|j: int| 0 <= j < k ==> {
                            &&& (#[trigger] posters@[j]).index == j
                            &&& !posters@[j].show_episode_info
                            &&& posters@[j].series == all[j].series
                            &&& posters@[j].episode_list == all[j].episode_list
                            &&& posters@[j].total_series_episodes == all[j].total_episodes
                        },
                    decreases rest@.len(),
                {
                    let entry = rest.remove(0);
                    proof {
                        assert(entry == all[k as int]);
                    }
                    posters.push(WatchlistPoster::new(k, entry));
                    proof {
                        assert(rest@ =~= all.subrange(k + 1, all.len() as int));
                    }
                    k = k + 1;
                }
                proof {
                    let entries_of = posters@.map_values(
                        |p: WatchlistPoster|
                            WatchlistEntry {
                                series: p.series,
                                episode_list: p.episode_list,
                                total_episodes: p.total_series_episodes,
                            },
                    );
                    assert(entries_of =~= all);
                    assert(poster_entries(posters@) =~= all);
                }
                self.watchlist_posters = posters;
            },
            Message::ToggleEpisodeInfo(index) => {
                let mut posters: Vec<WatchlistPoster> = Vec::new();
                std::mem::swap(&mut posters, &mut self.watchlist_posters);
                let mut poster = posters.remove(index);
                poster.toggle_episode_info();
                posters.insert(index, poster);
                self.watchlist_posters = posters;
            },
            Message::Searcher(message) => {
                self.searcher.update(message);
                let mut collection: Vec<&SeriesMainInformation> = Vec::new();
                let mut i: usize = 0;
                while i < self.watchlist_posters.len()
                    invariant
                        i <= self.watchlist_posters@.len(),
                        collection@ == poster_series(self.watchlist_posters@.take(i as int)),
                    decreases self.watchlist_posters@.len() - i,
                {
                    collection.push(&self.watchlist_posters[i].series);
                    proof {
                        assert(collection@ =~= poster_series(self.watchlist_posters@.take(i + 1)));
                    }
                    i = i + 1;
                }
                proof {
                    assert(self.watchlist_posters@.take(i as int) =~= self.watchlist_posters@);
                }
                let mut matches: Option<Vec<u32>> = None;
                update_matches(&mut matches, self.searcher.current_search_term(), collection.as_slice());
                self.matched_id_collection = matches;
            },
        }
    }

    /// What the watchlist shows.
    pub fn view_state(&self) -> (v: WatchlistView)
        ensures
            self.load_state == LoadState::Loading ==> v is Loading,
            self.load_state == LoadState::Loaded && self.watchlist_posters@.len() == 0 ==> v is AllClear,
            self.load_state == LoadState::Loaded && self.watchlist_posters@.len() > 0 ==> match v {
                WatchlistView::Posters(shown) => shown@.len() > 0 && forall|k: int|
                    0 <= k < shown@.len() ==> shown@[k] < self.watchlist_posters@.len() && is_shown_spec(
                        self.matched_id_collection,
                        self.watchlist_posters@[shown@[k] as int].series.id,
                    ),
                WatchlistView::NoMatches => forall|i: int|
                    0 <= i < self.watchlist_posters@.len() ==> !is_shown_spec(
                        self.matched_id_collection,
                        #[trigger] self.watchlist_posters@[i].series.id,
                    ),
                _ => false,
            },
            v matches WatchlistView::Posters(shown) ==> forall|i: int|
                0 <= i < self.watchlist_posters@.len() && is_shown_spec(
                    self.matched_id_collection,
                    #[trigger] self.watchlist_posters@[i].series.id,
                ) ==> shown@.contains(i as usize),
            v matches WatchlistView::Posters(shown) ==> forall|a: int, b: int| 0 <= a < b < shown@.len() ==> shown@[a]
                < shown@[b],
    {
        if self.load_state == LoadState::Loading {
            return WatchlistView::Loading;
        }
        if self.watchlist_posters.len() == 0 {
            return WatchlistView::AllClear;
        }
        let mut shown: Vec<usize> = Vec::new();
        let mut i: usize = 0;
        while i < self.watchlist_posters.len()
            invariant
                i <= self.watchlist_posters@.len(),
                forall|a: int, b: int| 0 <= a < b < shown@.len() ==> shown@[a] < shown@[b],
                forall|k: int| 0 <= k < shown@.len() ==> shown@[k] < i && is_shown_spec(
                    self.matched_id_collection,
                    self.watchlist_posters@[shown@[k] as int].series.id,
                ),
                forall|j: int| 0 <= j < i && is_shown_spec(
                    self.matched_id_collection,
                    #[trigger] self.watchlist_posters@[j].series.id,
                ) ==> shown@.contains(j as usize),
            decreases self.watchlist_posters@.len() - i,
        {
            if is_shown(&self.matched_id_collection, self.watchlist_posters[i].series.id) {
                let ghost old_shown = shown@;
                shown.push(i);
                proof {
                    assert forall|j: int| 0 <= j < i + 1 && is_shown_spec(
                        self.matched_id_collection,
                        #[trigger] self.watchlist_posters@[j].series.id,
                    ) implies shown@.contains(j as usize) by {
                        if j < i {
                            let k = choose|k: int| 0 <= k < old_shown.len() && old_shown[k] == j as usize;
                            assert(shown@[k] == j as usize);
                        } else {
                            assert(shown@[old_shown.len() as int] == i);
                        }
                    }
                }
            }
            i = i + 1;
        }
        if shown.len() == 0 {
            proof {
                assert forall|j: int| 0 <= j < self.watchlist_posters@.len() implies !is_shown_spec(
                    self.matched_id_collection,
                    #[trigger] self.watchlist_posters@[j].series.id,
                ) by {
                    if is_shown_spec(self.matched_id_collection, self.watchlist_posters@[j].series.id) {
                        assert(shown@.contains(j as usize));
                    }
                }
            }
            WatchlistView::NoMatches
        } else {
            WatchlistView::Posters(shown)
        }
    }
}

/// Whether a series is shown after a search (see [`is_shown`]).
pub open spec fn is_shown_spec(matched: Option<Vec<u32>>, id: u32) -> bool {
    match matched {
        Some(ids) => ids@.contains(id),
        None => true,
    }
}

/// A prefix totals at most the whole.
pub proof fn lemma_total_prefix(entries: Seq<WatchlistEntry>, n: int)
    requires
        0 <= n <= entries.len(),
    ensures
        total_of(entries.take(n)) <= total_of(entries),
    decreases entries.len(),
{
    if n < entries.len() {
        assert(entries.drop_last().take(n) =~= entries.take(n));
        lemma_total_prefix(entries.drop_last(), n);
    } else {
        assert(entries.take(n) =~= entries);
    }
}

} // verus!
