//! The episodes of a series as the series database lists them, and what the
//! pages compute from them: the seasons, the episodes released so far and
//! the next episode to air.

use vstd::prelude::*;

use crate::name_order::{keeps_order_of_equals, lemma_with_key_insert, lemma_with_key_push, with_key};

verus! {

/// An episode of a series.
#[derive(Debug)]
pub struct Episode {
    pub name: String,
    pub season: u32,
    /// Special episodes have no number.
    pub number: Option<u32>,
    /// The moment of release, in RFC 3339 form.
    pub airstamp: Option<String>,
    /// In minutes.
    pub runtime: Option<u32>,
    pub summary: Option<String>,
}

impl Episode {
    /// A copy of the episode.
    pub fn duplicate(&self) -> (e: Self)
        ensures
            e == *self,
    {
        Episode {
            name: self.name.clone(),
            season: self.season,
            number: self.number,
            airstamp: match &self.airstamp {
                Some(a) => Some(a.clone()),
                None => None,
            },
            runtime: self.runtime,
            summary: match &self.summary {
                Some(s) => Some(s.clone()),
                None => None,
            },
        }
    }
}

/// The moment an RFC 3339 date and time stands for, in seconds since the
/// Unix epoch, or `None` when the text is not one.
pub uninterp spec fn rfc3339_timestamp(text: Seq<char>) -> Option<i64>;

/// `chrono::DateTime::parse_from_rfc3339` followed by `timestamp`: the
/// moment the text stands for, named by `rfc3339_timestamp`.
#[verifier::external_body]
fn parse_rfc3339_timestamp(text: &str) -> (r: Option<i64>)
    ensures
        r == rfc3339_timestamp(text@),
{
    match chrono::DateTime::parse_from_rfc3339(text) {
        Ok(date_time) => Some(date_time.timestamp()),
        Err(_) => None,
    }
}

/// When the episode is released, in seconds since the Unix epoch, when its
/// airstamp is known and valid.
pub open spec fn release_time_of(episode: Episode) -> Option<i64> {
    match episode.airstamp {
        Some(airstamp) => rfc3339_timestamp(airstamp@),
        None => None,
    }
}

/// Whether the episode was released at `now` (seconds since the Unix
/// epoch).
pub open spec fn is_released(episode: Episode, now: i64) -> bool {
    match release_time_of(episode) {
        Some(time) => time <= now,
        None => false,
    }
}

/// Whether the episode is to be released after `now`.
pub open spec fn is_upcoming(episode: Episode, now: i64) -> bool {
    match release_time_of(episode) {
        Some(time) => time > now,
        None => false,
    }
}

impl Episode {
    /// When the episode is released (see [`release_time_of`]).
    pub fn release_time(&self) -> (r: Option<i64>)
        ensures
            r == release_time_of(*self),
    {
        match &self.airstamp {
            Some(airstamp) => parse_rfc3339_timestamp(airstamp.as_str()),
            None => None,
        }
    }
}

/// The number of episodes of `season` among `episodes`.
pub open spec fn season_count(episodes: Seq<Episode>, season: u32) -> nat
    decreases episodes.len(),
{
    if episodes.len() == 0 {
        0
    } else {
        season_count(episodes.drop_last(), season) + if episodes.last().season == season { 1nat } else { 0nat }
    }
}

/// The number of episodes of `season` among `episodes` released at `now`.
pub open spec fn released_season_count(episodes: Seq<Episode>, season: u32, now: i64) -> nat
    decreases episodes.len(),
{
    if episodes.len() == 0 {
        0
    } else {
        released_season_count(episodes.drop_last(), season, now) + if episodes.last().season == season
            && is_released(episodes.last(), now) {
            1nat
        } else {
            0nat
        }
    }
}

/// The number of episodes among `episodes` released at `now`.
pub open spec fn released_count(episodes: Seq<Episode>, now: i64) -> nat
    decreases episodes.len(),
{
    if episodes.len() == 0 {
        0
    } else {
        released_count(episodes.drop_last(), now) + if is_released(episodes.last(), now) { 1nat } else { 0nat }
    }
}

/// The seasons of the episodes, each once, in the order they first appear.
pub open spec fn distinct_seasons(episodes: Seq<Episode>) -> Seq<u32>
    decreases episodes.len(),
{
    if episodes.len() == 0 {
        Seq::empty()
    } else {
        let before = distinct_seasons(episodes.drop_last());
        if before.contains(episodes.last().season) {
            before
        } else {
            before.push(episodes.last().season)
        }
    }
}

/// The count of a kind of episode is at most the number of episodes.
pub proof fn lemma_counts_bounded(episodes: Seq<Episode>, season: u32, now: i64)
    ensures
        season_count(episodes, season) <= episodes.len(),
        released_season_count(episodes, season, now) <= season_count(episodes, season),
        released_count(episodes, now) <= episodes.len(),
    decreases episodes.len(),
{
    if episodes.len() > 0 {
        lemma_counts_bounded(episodes.drop_last(), season, now);
    }
}

/// The numbers of episodes of a season: all of them and those released.
#[derive(Debug, Clone, Copy, PartialEq, Eq, Structural)]
pub struct TotalEpisodes {
    pub all_episodes: usize,
    pub all_watchable_episodes: usize,
}

impl TotalEpisodes {
    pub fn get_all_episodes(&self) -> (n: usize)
        ensures
            n == self.all_episodes,
    {
        self.all_episodes
    }

    pub fn get_all_watchable_episodes(&self) -> (n: usize)
        ensures
            n == self.all_watchable_episodes,
    {
        self.all_watchable_episodes
    }
}

/// The episodes of a series, in the order the series database lists them.
#[derive(Debug)]
pub struct EpisodeList {
    pub episodes: Vec<Episode>,
}

impl EpisodeList {
    /// The seasons of the series, each once, in the order they first appear.
    pub fn get_season_numbers(&self) -> (r: Vec<u32>)
        ensures
            r@ == distinct_seasons(self.episodes@),
    {
        let mut r: Vec<u32> = Vec::new();
        let mut i: usize = 0;
        while i < self.episodes.len()
            invariant
                i <= self.episodes@.len(),
                r@ == distinct_seasons(self.episodes@.subrange(0, i as int)),
            decreases self.episodes@.len() - i,
        {
            let season = self.episodes[i].season;
            let mut j: usize = 0;
            let mut found = false;
            while j < r.len()
                invariant
                    j <= r@.len(),
                    found == (exists|k: int| 0 <= k < j && r@[k] == season),
                decreases r@.len() - j,
            {
                if r[j] == season {
                    found = true;
                }
                j = j + 1;
            }
            proof {
                let prefix = self.episodes@.subrange(0, i + 1);
                assert(prefix.drop_last() =~= self.episodes@.subrange(0, i as int));
                assert(prefix.last() == self.episodes@[i as int]);
                if found {
                    let k = choose|k: int| 0 <= k < j && r@[k] == season;
                    assert(r@.contains(season));
                } else {
                    assert(!r@.contains(season));
                }
            }
            if !found {
                r.push(season);
            }
            i = i + 1;
        }
        proof {
            assert(self.episodes@.subrange(0, i as int) =~= self.episodes@);
        }
        r
    }

    /// How many episodes `season` has, and how many of them were released at
    /// `now`.
    pub fn get_season_total_episodes(&self, season: u32, now: i64) -> (t: TotalEpisodes)
        ensures
            t.all_episodes == season_count(self.episodes@, season),
            t.all_watchable_episodes == released_season_count(self.episodes@, season, now),
    {
        let mut all: usize = 0;
        let mut watchable: usize = 0;
        let mut i: usize = 0;
        while i < self.episodes.len()
            invariant
                i <= self.episodes@.len(),
                all == season_count(self.episodes@.subrange(0, i as int), season),
                watchable == released_season_count(self.episodes@.subrange(0, i as int), season, now),
            decreases self.episodes@.len() - i,
        {
            proof {
                let prefix = self.episodes@.subrange(0, i + 1);
                assert(prefix.drop_last() =~= self.episodes@.subrange(0, i as int));
                lemma_counts_bounded(self.episodes@.subrange(0, i as int), season, now);
            }
            if self.episodes[i].season == season {
                all = all + 1;
                match self.episodes[i].release_time() {
                    Some(time) => {
                        if time <= now {
                            watchable = watchable + 1;
                        }
                    },
                    None => {},
                }
            }
            i = i + 1;
        }
        proof {
            assert(self.episodes@.subrange(0, i as int) =~= self.episodes@);
        }
        TotalEpisodes { all_episodes: all, all_watchable_episodes: watchable }
    }

    /// How many episodes of the series were released at `now`.
    pub fn get_total_watchable_episodes(&self, now: i64) -> (n: usize)
        ensures
            n == released_count(self.episodes@, now),
    {
        let mut n: usize = 0;
        let mut i: usize = 0;
        while i < self.episodes.len()
            invariant
                i <= self.episodes@.len(),
                n == released_count(self.episodes@.subrange(0, i as int), now),
            decreases self.episodes@.len() - i,
        {
            proof {
                let prefix = self.episodes@.subrange(0, i + 1);
                assert(prefix.drop_last() =~= self.episodes@.subrange(0, i as int));
                lemma_counts_bounded(self.episodes@.subrange(0, i as int), 0, now);
            }
            match self.episodes[i].release_time() {
                Some(time) => {
                    if time <= now {
                        n = n + 1;
                    }
                },
                None => {},
            }
            i = i + 1;
        }
        proof {
            assert(self.episodes@.subrange(0, i as int) =~= self.episodes@);
        }
        n
    }

    /// The positions of the episodes of `season`, in order.
    pub fn get_episodes(&self, season: u32) -> (r: Vec<usize>)
        ensures
            forall|a: int, b: int| 0 <= a < b < r@.len() ==> r@[a] < r@[b],
            forall|k: int| 0 <= k < r@.len() ==> r@[k] < self.episodes@.len() && self.episodes@[r@[k] as int].season
                == season,
            forall|i: int| 0 <= i < self.episodes@.len() && #[trigger] self.episodes@[i].season == season ==> r@.contains(
                i as usize,
            ),
    {
        let mut r: Vec<usize> = Vec::new();
        let mut i: usize = 0;
        while i < self.episodes.len()
            invariant
                i <= self.episodes@.len(),
                forall|a: int, b: int| 0 <= a < b < r@.len() ==> r@[a] < r@[b],
                forall|k: int| 0 <= k < r@.len() ==> r@[k] < i && self.episodes@[r@[k] as int].season == season,
                forall|j: int| 0 <= j < i && #[trigger] self.episodes@[j].season == season ==> r@.contains(j as usize),
            decreases self.episodes@.len() - i,
        {
            if self.episodes[i].season == season {
                let ghost old_r = r@;
                r.push(i);
                proof {
                    assert forall|j: int| 0 <= j < i + 1 && #[trigger] self.episodes@[j].season == season implies r@.contains(
                        j as usize,
                    ) by {
                        if j < i {
                            let k = choose|k: int| 0 <= k < old_r.len() && old_r[k] == j as usize;
                            assert(r@[k] == j as usize);
                        } else {
                            assert(r@[old_r.len() as int] == i);
                        }
                    }
                }
            }
            i = i + 1;
        }
        r
    }

    /// The first episode, in the order of the list, to be released after
    /// `now`, with its release time.
    pub fn get_next_episode_to_air_and_time(&self, now: i64) -> (r: Option<(usize, i64)>)
        ensures
            match r {
                Some((i, time)) => i < self.episodes@.len() && release_time_of(self.episodes@[i as int]) == Some(time)
                    && time > now && forall|j: int| 0 <= j < i ==> !is_upcoming(#[trigger] self.episodes@[j], now),
                None => forall|j: int| 0 <= j < self.episodes@.len() ==> !is_upcoming(#[trigger] self.episodes@[j], now),
            },
    {
        let mut i: usize = 0;
        while i < self.episodes.len()
            invariant
                i <= self.episodes@.len(),
                forall|j: int| 0 <= j < i ==> !is_upcoming(#[trigger] self.episodes@[j], now),
            decreases self.episodes@.len() - i,
        {
            match self.episodes[i].release_time() {
                Some(time) => {
                    if time > now {
                        return Some((i, time));
                    }
                },
                None => {},
            }
            i = i + 1;
        }
        None
    }
}

/// Whether `i` is the first episode of the list to be released after
/// `now`.
pub open spec fn is_first_upcoming(episodes: Seq<Episode>, now: i64, i: int) -> bool {
    &&& 0 <= i < episodes.len()
    &&& is_upcoming(episodes[i], now)
    &&& forall|j: int| 0 <= j < i ==> !is_upcoming(#[trigger] episodes[j], now)
}

/// The release time of the first episode of the list to be released after
/// `now`, if any.
pub open spec fn next_release_time(episodes: Seq<Episode>, now: i64) -> Option<i64> {
    if exists|i: int| is_first_upcoming(episodes, now, i) {
        release_time_of(episodes[choose|i: int| is_first_upcoming(episodes, now, i)])
    } else {
        None
    }
}

impl EpisodeList {
    /// The release time of the next episode to air after `now` (see
    /// [`next_release_time`]).
    pub fn next_release_time(&self, now: i64) -> (r: Option<i64>)
        ensures
            r == next_release_time(self.episodes@, now),
    {
        match self.get_next_episode_to_air_and_time(now) {
            Some((i, time)) => {
                proof {
                    let e = self.episodes@;
                    assert(is_first_upcoming(e, now, i as int));
                    let c = choose|c: int| is_first_upcoming(e, now, c);
                    if c < i {
                        assert(!is_upcoming(e[c], now));
                    } else if c > i {
                        assert(!is_upcoming(e[i as int], now));
                    }
                }
                Some(time)
            },
            None => {
                proof {
                    let e = self.episodes@;
                    if exists|i: int| is_first_upcoming(e, now, i) {
                        let c = choose|c: int| is_first_upcoming(e, now, c);
                        assert(!is_upcoming(e[c], now));
                    }
                }
                None
            },
        }
    }
}

/// Something released at a moment.
pub trait Timed {
    /// The moment of release, in seconds since the Unix epoch.
    spec fn time_of(&self) -> i64;

    fn time(&self) -> (t: i64)
        ensures
            t == self.time_of(),
    ;
}

/// The releases come in order of release time.
pub open spec fn sorted_by_release_time<T: Timed>(releases: Seq<T>) -> bool {
    forall|a: int, b: int| 0 <= a < b < releases.len() ==> releases[a].time_of() <= releases[b].time_of()
}

/// The release time of an item, as the key it is sorted by.
pub open spec fn release_key<T: Timed>() -> spec_fn(T) -> i64 {
    |x: T| x.time_of()
}

/// The releases sorted by release time, those with the same time in the
/// order they came.
pub fn sort_by_release_time<T: Timed>(releases: Vec<T>) -> (r: Vec<T>)
    ensures
        sorted_by_release_time(r@),
        r@.to_multiset() == releases@.to_multiset(),
        keeps_order_of_equals(r@, releases@, release_key::<T>()),
{
    let mut sorted: Vec<T> = Vec::new();
    let mut rest = releases;
    let ghost unsorted = rest@;
    let mut taken: usize = 0;
    let n = rest.len();
    proof {
        assert(unsorted.subrange(0, 0) =~= Seq::<T>::empty());
    }
    while rest.len() > 0
        invariant
            taken + rest@.len() == unsorted.len(),
            unsorted.len() == n,
            rest@ == unsorted.subrange(taken as int, unsorted.len() as int),
            sorted_by_release_time(sorted@),
            sorted@.to_multiset() == unsorted.subrange(0, taken as int).to_multiset(),
            keeps_order_of_equals(sorted@, unsorted.subrange(0, taken as int), release_key::<T>()),
        decreases rest@.len(),
    {
        let ghost rest_before = rest@;
        let item = rest.remove(0);
        let mut pos: usize = 0;
        while pos < sorted.len() && sorted[pos].time() <= item.time()
            invariant
                pos <= sorted@.len(),
                forall|k: int| 0 <= k < pos ==> sorted@[k].time_of() <= item.time_of(),
            decreases sorted@.len() - pos,
        {
            pos = pos + 1;
        }
        let ghost before = sorted@;
        sorted.insert(pos, item);
        proof {
            broadcast use vstd::seq_lib::to_multiset_insert;
            assert(sorted@ == before.insert(pos as int, item));
            assert forall|a: int, b: int| 0 <= a < b < sorted@.len() implies sorted@[a].time_of()
                <= sorted@[b].time_of() by {
                if b < pos {
                } else if b == pos {
                } else if a < pos {
                    assert(sorted@[b] == before[b - 1]);
                    assert(before[a].time_of() <= item.time_of());
                    if pos < before.len() {
                        assert(item.time_of() < before[pos as int].time_of());
                    }
                    assert(before[a].time_of() <= before[b - 1].time_of());
                } else if a == pos {
                    assert(item.time_of() < before[pos as int].time_of());
                    assert(sorted@[b] == before[b - 1]);
                    if b - 1 > pos {
                        assert(before[pos as int].time_of() <= before[b - 1].time_of());
                    }
                } else {
                    assert(sorted@[a] == before[a - 1]);
                    assert(sorted@[b] == before[b - 1]);
                }
            }
            assert(item == unsorted[taken as int]);
            assert(unsorted.subrange(0, taken + 1) =~= unsorted.subrange(0, taken as int).push(item));
            vstd::seq_lib::to_multiset_build(unsorted.subrange(0, taken as int), item);
            assert(rest@ =~= unsorted.subrange(taken + 1, unsorted.len() as int));
            let key = release_key::<T>();
            assert forall|j: int| pos <= j < before.len() implies key(#[trigger] before[j]) != key(item) by {
                assert(before[pos as int].time_of() <= before[j].time_of());
            }
            assert forall|k: i64| #[trigger] with_key(sorted@, key, k) == with_key(
                unsorted.subrange(0, taken + 1),
                key,
                k,
            ) by {
                lemma_with_key_insert(before, pos as int, item, key, k);
                lemma_with_key_push(unsorted.subrange(0, taken as int), item, key, k);
                assert(with_key(before, key, k) == with_key(unsorted.subrange(0, taken as int), key, k));
            }
        }
        taken = taken + 1;
    }
    proof {
        assert(unsorted.subrange(0, taken as int) =~= unsorted);
    }
    sorted
}

} // verus!
