//! The "My Shows" page: the tracked series sorted into the upcoming
//! releases, the series waiting for a release date, the ended series and the
//! untracked ones.

use vstd::prelude::*;

use crate::episodes::{
    next_release_time, release_key, sort_by_release_time, sorted_by_release_time, EpisodeList, Timed,
};
use crate::name_order::keeps_order_of_equals;
use crate::series_information::{ended_text, status_of, SeriesMainInformation, SeriesStatus};

verus! {

/// The part of the page a series is shown in.
#[derive(Debug, Clone, Copy, PartialEq, Eq, Structural)]
pub enum MyShowsFilter {
    WaitingRelease,
    Untracked,
    Ended,
}

/// Whether a series with this status, tracking state and id is shown in the
/// part `filter`; `upcoming` holds the ids of the series with an upcoming
/// release, which have a part of their own.
pub open spec fn in_category(status: SeriesStatus, is_tracked: bool, id: u32, upcoming: Seq<u32>, filter: MyShowsFilter) -> bool {
    match filter {
        MyShowsFilter::Untracked => !is_tracked,
        MyShowsFilter::Ended => is_tracked && status == SeriesStatus::Ended,
        MyShowsFilter::WaitingRelease => is_tracked && status != SeriesStatus::Ended && !upcoming.contains(id),
    }
}

/// Whether a series is shown among the upcoming releases.
pub open spec fn in_upcoming(status: SeriesStatus, is_tracked: bool, id: u32, upcoming: Seq<u32>) -> bool {
    is_tracked && status != SeriesStatus::Ended && upcoming.contains(id)
}

/// `indices` lists, in increasing order and once each, exactly the positions
/// where `flags` holds.
pub open spec fn lists_exactly(indices: Seq<usize>, flags: Seq<bool>) -> bool {
    &&& forall|a: int, b: int| 0 <= a < b < indices.len() ==> indices[a] < indices[b]
    &&& forall|k: int| 0 <= k < indices.len() ==> indices[k] < flags.len() && flags[indices[k] as int]
    &&& forall|i: int| 0 <= i < flags.len() && #[trigger] flags[i] ==> indices.contains(i as usize)
}

/// The positions where `flags` holds, in increasing order.
pub fn select_indices(flags: &[bool]) -> (r: Vec<usize>)
    ensures
        lists_exactly(r@, flags@),
{
    let mut r: Vec<usize> = Vec::new();
    let mut i: usize = 0;
    while i < flags.len()
        invariant
            i <= flags@.len(),
            forall|a: int, b: int| 0 <= a < b < r@.len() ==> r@[a] < r@[b],
            forall|k: int| 0 <= k < r@.len() ==> r@[k] < i && flags@[r@[k] as int],
            forall|j: int| 0 <= j < i && flags@[j] ==> r@.contains(j as usize),
        decreases flags@.len() - i,
    {
        if flags[i] {
            let ghost old_r = r@;
            r.push(i);
            proof {
                assert forall|j: int| 0 <= j < i + 1 && flags@[j] implies r@.contains(j as usize) by {
                    if j < i {
                        let k = choose|k: int| 0 <= k < old_r.len() && old_r[k] == j as usize;
                        assert(r@[k] == j as usize);
                    } else {
                        assert(r@[old_r.len() as int] == i);
                    }
                }
            }
        }
        i = i + 1;
    }
    r
}

/// Whether `id` is one of `ids`.
pub fn contains_id(ids: &[u32], id: u32) -> (b: bool)
    ensures
        b == ids@.contains(id),
{
    let mut i: usize = 0;
    while i < ids.len()
        invariant
            i <= ids@.len(),
            forall|j: int| 0 <= j < i ==> ids@[j] != id,
        decreases ids@.len() - i,
    {
        if ids[i] == id {
            assert(ids@[i as int] == id);
            return true;
        }
        i = i + 1;
    }
    false
}

/// The positions of the series shown in the part `filter` of the page;
/// `tracked[i]` says whether the series `series[i]` is tracked and
/// `upcoming_ids` lists the series with an upcoming release.
pub fn filter_posters(
    series: &[SeriesMainInformation],
    is_tracked: &[bool],
    upcoming_ids: &[u32],
    filter: MyShowsFilter,
) -> (r: Vec<usize>)
    requires
        series@.len() == is_tracked@.len(),
    ensures
        lists_exactly(r@, category_flags(series@, is_tracked@, upcoming_ids@, filter)),
{
    let mut flags: Vec<bool> = Vec::new();
    let mut i: usize = 0;
    while i < series.len()
        invariant
            i <= series@.len(),
            series@.len() == is_tracked@.len(),
            flags@.len() == i,
            forall|j: int| 0 <= j < i ==> flags@[j] == in_category(
                status_of(series@[j].status@),
                is_tracked@[j],
                series@[j].id,
                upcoming_ids@,
                filter,
            ),
        decreases series@.len() - i,
    {
        let status = SeriesStatus::new(&series[i]);
        let this_tracked = is_tracked[i];
        let flag = match filter {
            MyShowsFilter::Untracked => !this_tracked,
            MyShowsFilter::Ended => this_tracked && status == SeriesStatus::Ended,
            MyShowsFilter::WaitingRelease => this_tracked && status != SeriesStatus::Ended && !contains_id(
                upcoming_ids,
                series[i].id,
            ),
        };
        flags.push(flag);
        i = i + 1;
    }
    proof {
        assert(flags@ =~= category_flags(series@, is_tracked@, upcoming_ids@, filter));
    }
    select_indices(flags.as_slice())
}

/// Whether each series is shown in the part `filter` of the page.
pub open spec fn category_flags(
    series: Seq<SeriesMainInformation>,
    is_tracked: Seq<bool>,
    upcoming: Seq<u32>,
    filter: MyShowsFilter,
) -> Seq<bool> {
    Seq::new(
        series.len(),
        |i: int| in_category(status_of(series[i].status@), is_tracked[i], series[i].id, upcoming, filter),
    )
}

/// Whether each series is shown among the upcoming releases.
pub open spec fn upcoming_flags(series: Seq<SeriesMainInformation>, is_tracked: Seq<bool>, upcoming: Seq<u32>) -> Seq<
    bool,
> {
    Seq::new(series.len(), |i: int| in_upcoming(status_of(series[i].status@), is_tracked[i], series[i].id, upcoming))
}

/// The positions of the series shown among the upcoming releases: tracked,
/// not ended, and with an upcoming release (their id is in `upcoming_ids`).
pub fn upcoming_posters(series: &[SeriesMainInformation], is_tracked: &[bool], upcoming_ids: &[u32]) -> (r: Vec<usize>)
    requires
        series@.len() == is_tracked@.len(),
    ensures
        lists_exactly(r@, upcoming_flags(series@, is_tracked@, upcoming_ids@)),
{
    let mut flags: Vec<bool> = Vec::new();
    let mut i: usize = 0;
    while i < series.len()
        invariant
            i <= series@.len(),
            series@.len() == is_tracked@.len(),
            flags@.len() == i,
            forall|j: int| 0 <= j < i ==> flags@[j] == in_upcoming(
                status_of(series@[j].status@),
                is_tracked@[j],
                series@[j].id,
                upcoming_ids@,
            ),
        decreases series@.len() - i,
    {
        let status = SeriesStatus::new(&series[i]);
        let flag = is_tracked[i] && status != SeriesStatus::Ended && contains_id(upcoming_ids, series[i].id);
        flags.push(flag);
        i = i + 1;
    }
    proof {
        assert(flags@ =~= upcoming_flags(series@, is_tracked@, upcoming_ids@));
    }
    select_indices(flags.as_slice())
}

/// A position is listed exactly when its flag holds.
proof fn lemma_listed_iff_flag(indices: Seq<usize>, flags: Seq<bool>, i: int)
    requires
        lists_exactly(indices, flags),
        0 <= i < flags.len(),
        i <= usize::MAX,
    ensures
        indices.contains(i as usize) <==> flags[i],
{
    if indices.contains(i as usize) {
        let k = choose|k: int| 0 <= k < indices.len() && indices[k] == i as usize;
        assert(flags[indices[k] as int]);
    }
}

/// How many of the four parts of the page list the position `p`.
pub open spec fn times_listed(coming: Seq<usize>, waiting: Seq<usize>, ended: Seq<usize>, untracked: Seq<usize>, p: usize) -> int {
    (if coming.contains(p) { 1int } else { 0 }) + (if waiting.contains(p) { 1int } else { 0 })
        + (if ended.contains(p) { 1int } else { 0 }) + (if untracked.contains(p) { 1int } else { 0 })
}

/// A listed position is the position of a series.
proof fn lemma_listed_in_range(indices: Seq<usize>, flags: Seq<bool>, p: usize)
    requires
        lists_exactly(indices, flags),
        indices.contains(p),
    ensures
        (p as int) < flags.len(),
{
    let k = choose|k: int| 0 <= k < indices.len() && indices[k] == p;
    assert(indices[k] < flags.len());
}

/// The four parts of the page split the series: the upcoming releases
/// (`upcoming_posters`), and the series waiting for a release, the ended
/// series and the untracked series (`filter_posters`). Every position of a
/// series is listed in exactly one of the four, and no list holds anything
/// else; so the four lists are pairwise disjoint and together cover every
/// series.
pub proof fn lemma_posters_partition(
    series: Seq<SeriesMainInformation>,
    is_tracked: Seq<bool>,
    upcoming: Seq<u32>,
    coming: Seq<usize>,
    waiting: Seq<usize>,
    ended: Seq<usize>,
    untracked: Seq<usize>,
)
    requires
        series.len() == is_tracked.len(),
        series.len() <= usize::MAX,
        lists_exactly(coming, upcoming_flags(series, is_tracked, upcoming)),
        lists_exactly(waiting, category_flags(series, is_tracked, upcoming, MyShowsFilter::WaitingRelease)),
        lists_exactly(ended, category_flags(series, is_tracked, upcoming, MyShowsFilter::Ended)),
        lists_exactly(untracked, category_flags(series, is_tracked, upcoming, MyShowsFilter::Untracked)),
    ensures
        forall|p: usize|
            #[trigger] times_listed(coming, waiting, ended, untracked, p) == if (p as int) < series.len() {
                1int
            } else {
                0int
            },
        forall|i: int|
            0 <= i < series.len() ==> coming.contains(#[trigger] (i as usize)) || waiting.contains(i as usize)
                || ended.contains(i as usize) || untracked.contains(i as usize),
{
    assert forall|p: usize| #[trigger] times_listed(coming, waiting, ended, untracked, p) == if (p as int) < series.len() {
        1int
    } else {
        0int
    } by {
        if (p as int) < series.len() {
            lemma_position_in_one_part(series, is_tracked, upcoming, coming, waiting, ended, untracked, p as int);
        } else {
            if coming.contains(p) {
                lemma_listed_in_range(coming, upcoming_flags(series, is_tracked, upcoming), p);
            }
            if waiting.contains(p) {
                lemma_listed_in_range(waiting, category_flags(series, is_tracked, upcoming, MyShowsFilter::WaitingRelease), p);
            }
            if ended.contains(p) {
                lemma_listed_in_range(ended, category_flags(series, is_tracked, upcoming, MyShowsFilter::Ended), p);
            }
            if untracked.contains(p) {
                lemma_listed_in_range(untracked, category_flags(series, is_tracked, upcoming, MyShowsFilter::Untracked), p);
            }
        }
    }
    assert forall|i: int| 0 <= i < series.len() implies coming.contains(#[trigger] (i as usize)) || waiting.contains(i as usize)
        || ended.contains(i as usize) || untracked.contains(i as usize) by {
        lemma_position_in_one_part(series, is_tracked, upcoming, coming, waiting, ended, untracked, i);
    }
}

/// The series at position `i` is listed in exactly one part of the page.
proof fn lemma_position_in_one_part(
    series: Seq<SeriesMainInformation>,
    is_tracked: Seq<bool>,
    upcoming: Seq<u32>,
    coming: Seq<usize>,
    waiting: Seq<usize>,
    ended: Seq<usize>,
    untracked: Seq<usize>,
    i: int,
)
    requires
        series.len() == is_tracked.len(),
        series.len() <= usize::MAX,
        0 <= i < series.len(),
        lists_exactly(coming, upcoming_flags(series, is_tracked, upcoming)),
        lists_exactly(waiting, category_flags(series, is_tracked, upcoming, MyShowsFilter::WaitingRelease)),
        lists_exactly(ended, category_flags(series, is_tracked, upcoming, MyShowsFilter::Ended)),
        lists_exactly(untracked, category_flags(series, is_tracked, upcoming, MyShowsFilter::Untracked)),
    ensures
        times_listed(coming, waiting, ended, untracked, i as usize) == 1,
{
    lemma_listed_iff_flag(coming, upcoming_flags(series, is_tracked, upcoming), i);
    lemma_listed_iff_flag(waiting, category_flags(series, is_tracked, upcoming, MyShowsFilter::WaitingRelease), i);
    lemma_listed_iff_flag(ended, category_flags(series, is_tracked, upcoming, MyShowsFilter::Ended), i);
    lemma_listed_iff_flag(untracked, category_flags(series, is_tracked, upcoming, MyShowsFilter::Untracked), i);
    lemma_parts_partition(status_of(series[i].status@), is_tracked[i], series[i].id, upcoming);
}

/// A status text stands for an ended series exactly when it is "Ended".
proof fn lemma_ended_status(status: Seq<char>)
    ensures
        (status_of(status) == SeriesStatus::Ended) <==> status == ended_text(),
{
}

/// Where each series is listed, stated on its tracking state, its status
/// text and the upcoming ids: the untracked part lists exactly the untracked
/// series; the ended part exactly the tracked series whose status is
/// "Ended"; the upcoming releases exactly the tracked series that have not
/// ended and whose id is among the upcoming ids; and the series waiting for
/// a release date exactly the tracked series that have not ended and whose
/// id is not among them, whatever else their status says.
pub proof fn lemma_posters_by_status(
    series: Seq<SeriesMainInformation>,
    is_tracked: Seq<bool>,
    upcoming: Seq<u32>,
    coming: Seq<usize>,
    waiting: Seq<usize>,
    ended: Seq<usize>,
    untracked: Seq<usize>,
)
    requires
        series.len() == is_tracked.len(),
        series.len() <= usize::MAX,
        lists_exactly(coming, upcoming_flags(series, is_tracked, upcoming)),
        lists_exactly(waiting, category_flags(series, is_tracked, upcoming, MyShowsFilter::WaitingRelease)),
        lists_exactly(ended, category_flags(series, is_tracked, upcoming, MyShowsFilter::Ended)),
        lists_exactly(untracked, category_flags(series, is_tracked, upcoming, MyShowsFilter::Untracked)),
    ensures
        forall|i: int|
            0 <= i < series.len() ==> (untracked.contains(#[trigger] (i as usize)) <==> !is_tracked[i]),
        forall|i: int|
            0 <= i < series.len() ==> (ended.contains(#[trigger] (i as usize)) <==> is_tracked[i] && series[i].status@
                == ended_text()),
        forall|i: int|
            0 <= i < series.len() ==> (coming.contains(#[trigger] (i as usize)) <==> is_tracked[i] && series[i].status@
                != ended_text() && upcoming.contains(series[i].id)),
        forall|i: int|
            0 <= i < series.len() ==> (waiting.contains(#[trigger] (i as usize)) <==> is_tracked[i] && series[i].status@
                != ended_text() && !upcoming.contains(series[i].id)),
{
    assert forall|i: int| 0 <= i < series.len() implies {
        &&& (untracked.contains(#[trigger] (i as usize)) <==> !is_tracked[i])
        &&& (ended.contains(i as usize) <==> is_tracked[i] && series[i].status@ == ended_text())
        &&& (coming.contains(i as usize) <==> is_tracked[i] && series[i].status@ != ended_text() && upcoming.contains(
            series[i].id,
        ))
        &&& (waiting.contains(i as usize) <==> is_tracked[i] && series[i].status@ != ended_text()
            && !upcoming.contains(series[i].id))
    } by {
        lemma_listed_iff_flag(coming, upcoming_flags(series, is_tracked, upcoming), i);
        lemma_listed_iff_flag(waiting, category_flags(series, is_tracked, upcoming, MyShowsFilter::WaitingRelease), i);
        lemma_listed_iff_flag(ended, category_flags(series, is_tracked, upcoming, MyShowsFilter::Ended), i);
        lemma_listed_iff_flag(untracked, category_flags(series, is_tracked, upcoming, MyShowsFilter::Untracked), i);
        lemma_ended_status(series[i].status@);
    }
}

/// Every series is shown in exactly one part of the page: among the
/// upcoming releases, or in exactly one of the other three parts.
pub proof fn lemma_parts_partition(status: SeriesStatus, is_tracked: bool, id: u32, upcoming: Seq<u32>)
    ensures
        in_upcoming(status, is_tracked, id, upcoming) ==> !in_category(status, is_tracked, id, upcoming, MyShowsFilter::WaitingRelease)
            && !in_category(status, is_tracked, id, upcoming, MyShowsFilter::Ended)
            && !in_category(status, is_tracked, id, upcoming, MyShowsFilter::Untracked),
        !in_upcoming(status, is_tracked, id, upcoming) ==> (in_category(status, is_tracked, id, upcoming, MyShowsFilter::WaitingRelease)
            ^ in_category(status, is_tracked, id, upcoming, MyShowsFilter::Ended)
            ^ in_category(status, is_tracked, id, upcoming, MyShowsFilter::Untracked))
            && !(in_category(status, is_tracked, id, upcoming, MyShowsFilter::WaitingRelease) && in_category(
            status,
            is_tracked,
            id,
            upcoming,
            MyShowsFilter::Ended,
        )),
{
}

/// Whether the page must load its series again: it shows nothing though
/// series are tracked, or the tracked series changed.
pub open spec fn reload_needed(shown_empty: bool, current_ids: Seq<u32>, fresh_ids: Seq<u32>) -> bool {
    (shown_empty && fresh_ids.len() > 0) || fresh_ids.to_set() != current_ids.to_set()
}

/// Whether every id of `a` is one of `b`.
fn all_contained(a: &[u32], b: &[u32]) -> (r: bool)
    ensures
        r == (forall|i: int| 0 <= i < a@.len() ==> b@.contains(#[trigger] a@[i])),
{
    let mut i: usize = 0;
    while i < a.len()
        invariant
            i <= a@.len(),
            forall|j: int| 0 <= j < i ==> b@.contains(#[trigger] a@[j]),
        decreases a@.len() - i,
    {
        if !contains_id(b, a[i]) {
            return false;
        }
        i = i + 1;
    }
    true
}

/// Whether the page must load its series again (see [`reload_needed`]).
pub fn needs_reload(shown_empty: bool, current_ids: &[u32], fresh_ids: &[u32]) -> (r: bool)
    ensures
        r == reload_needed(shown_empty, current_ids@, fresh_ids@),
{
    if shown_empty && fresh_ids.len() > 0 {
        return true;
    }
    let forward = all_contained(fresh_ids, current_ids);
    let backward = all_contained(current_ids, fresh_ids);
    proof {
        if forward && backward {
            assert forall|x: u32| fresh_ids@.to_set().contains(x) == current_ids@.to_set().contains(x) by {
                if fresh_ids@.contains(x) {
                    let i = choose|i: int| 0 <= i < fresh_ids@.len() && fresh_ids@[i] == x;
                    assert(current_ids@.contains(fresh_ids@[i]));
                }
                if current_ids@.contains(x) {
                    let i = choose|i: int| 0 <= i < current_ids@.len() && current_ids@[i] == x;
                    assert(fresh_ids@.contains(current_ids@[i]));
                }
            }
            assert(fresh_ids@.to_set() =~= current_ids@.to_set());
        } else if !forward {
            let i = choose|i: int| 0 <= i < fresh_ids@.len() && !current_ids@.contains(#[trigger] fresh_ids@[i]);
            assert(fresh_ids@.to_set().contains(fresh_ids@[i]));
            assert(!current_ids@.to_set().contains(fresh_ids@[i]));
        } else {
            let i = choose|i: int| 0 <= i < current_ids@.len() && !fresh_ids@.contains(#[trigger] current_ids@[i]);
            assert(current_ids@.to_set().contains(current_ids@[i]));
            assert(!fresh_ids@.to_set().contains(current_ids@[i]));
        }
    }
    !(forward && backward)
}

/// A tracked series with an episode to be released.
#[derive(Debug)]
pub struct UpcomingRelease {
    pub series: SeriesMainInformation,
    /// The release of the next episode, in seconds since the Unix epoch.
    pub release_time: i64,
}

impl Timed for UpcomingRelease {
    open spec fn time_of(&self) -> i64 {
        self.release_time
    }

    fn time(&self) -> (t: i64) {
        self.release_time
    }
}

/// The release time of the next episode of each list, at `now`.
pub open spec fn release_times(lists: Seq<EpisodeList>, now: i64) -> Seq<Option<i64>> {
    lists.map_values(|l: EpisodeList| next_release_time(l.episodes@, now))
}

/// The series, in order, that have not ended and have an episode to be
/// released, each with the release time of that episode; `times[i]` is
/// that of `series[i]`.
pub open spec fn upcoming_of(series: Seq<SeriesMainInformation>, times: Seq<Option<i64>>) -> Seq<UpcomingRelease>
    decreases series.len(),
{
    if series.len() == 0 {
        Seq::empty()
    } else {
        let before = upcoming_of(series.drop_last(), times.take(series.len() - 1));
        let last = series.last();
        match times[series.len() - 1] {
            Some(time) => if status_of(last.status@) != SeriesStatus::Ended {
                before.push(UpcomingRelease { series: last, release_time: time })
            } else {
                before
            },
            None => before,
        }
    }
}

/// The upcoming releases of `series`, stated on the status text and the
/// release times: every series that has not ended ("Ended") and has a
/// release time is listed with that time; every listed release is that of
/// such a series, with its time; and the releases keep the order of the
/// series.
#[verifier::spinoff_prover]
proof fn lemma_upcoming_of_members(series: Seq<SeriesMainInformation>, times: Seq<Option<i64>>)
    requires
        series.len() == times.len(),
    ensures
        ({
            let r = upcoming_of(series, times);
            &&& forall|i: int|
                0 <= i < series.len() && series[i].status@ != ended_text() && #[trigger] times[i] is Some ==> exists|k: int|
                    0 <= k < r.len() && r[k].series == series[i] && r[k].release_time == times[i]->0
            &&& forall|k: int|
                0 <= k < r.len() ==> exists|i: int|
                    0 <= i < series.len() && #[trigger] r[k].series == series[i] && series[i].status@ != ended_text()
                        && times[i] == Some(r[k].release_time)
            &&& r.len() <= series.len()
        }),
    decreases series.len(),
{
    if series.len() > 0 {
        let n = series.len() - 1;
        let s0 = series.drop_last();
        let t0 = times.take(n);
        lemma_upcoming_of_members(s0, t0);
        lemma_ended_status(series[n].status@);
        let before = upcoming_of(s0, t0);
        let r = upcoming_of(series, times);
        assert(forall|i: int| 0 <= i < n ==> s0[i] == series[i] && t0[i] == times[i]);
        assert forall|i: int|
            0 <= i < series.len() && series[i].status@ != ended_text() && #[trigger] times[i] is Some implies exists|k: int|
                0 <= k < r.len() && r[k].series == series[i] && r[k].release_time == times[i]->0 by {
            if i < n {
                assert(s0[i] == series[i] && t0[i] == times[i]);
                assert(t0[i] is Some);
                let k = choose|k: int| 0 <= k < before.len() && before[k].series == s0[i] && before[k].release_time == t0[i]->0;
                assert(r[k] == before[k]);
            } else {
                assert(r[before.len() as int].series == series[i]);
            }
        }
        assert forall|k: int| 0 <= k < r.len() implies exists|i: int|
            0 <= i < series.len() && #[trigger] r[k].series == series[i] && series[i].status@ != ended_text()
                && times[i] == Some(r[k].release_time) by {
            if k < before.len() {
                assert(r[k] == before[k]);
                let i = choose|i: int|
                    0 <= i < s0.len() && #[trigger] before[k].series == s0[i] && s0[i].status@ != ended_text()
                        && t0[i] == Some(before[k].release_time);
                assert(series[i] == s0[i] && times[i] == t0[i]);
            } else {
                assert(r[k].series == series[n as int]);
            }
        }
    }
}

/// The positions of the series that have not ended and have a release time.
pub open spec fn releasing_positions(series: Seq<SeriesMainInformation>, times: Seq<Option<i64>>, n: int) -> Seq<int> {
    Seq::new(n as nat, |i: int| i).filter(|i: int| series[i].status@ != ended_text() && times[i] is Some)
}

/// The release of the series at position `i` at its release time.
pub open spec fn release_at(series: Seq<SeriesMainInformation>, times: Seq<Option<i64>>, i: int) -> UpcomingRelease {
    UpcomingRelease { series: series[i], release_time: times[i]->0 }
}

/// The upcoming releases of the first `k` series are, in order, those of the
/// positions below `k` whose series has not ended and has a release time.
proof fn lemma_upcoming_of_prefix(series: Seq<SeriesMainInformation>, times: Seq<Option<i64>>, k: int)
    requires
        series.len() == times.len(),
        0 <= k <= series.len(),
    ensures
        upcoming_of(series.take(k), times.take(k)) == releasing_positions(series, times, k).map_values(
            |i: int| release_at(series, times, i),
        ),
    decreases k,
{
    let pred = |i: int| series[i].status@ != ended_text() && times[i] is Some;
    let mk = |i: int| release_at(series, times, i);
    if k == 0 {
        assert(Seq::new(0nat, |i: int| i).filter(pred) =~= Seq::<int>::empty()) by {
            reveal(Seq::filter);
        }
        assert(upcoming_of(series.take(0), times.take(0)) =~= Seq::<UpcomingRelease>::empty());
    } else {
        lemma_upcoming_of_prefix(series, times, k - 1);
        let idx = Seq::new(k as nat, |i: int| i);
        assert(idx.drop_last() =~= Seq::new((k - 1) as nat, |i: int| i));
        assert(idx.filter(pred) == if pred(k - 1) {
            idx.drop_last().filter(pred).push(k - 1)
        } else {
            idx.drop_last().filter(pred)
        }) by {
            reveal(Seq::filter);
        }
        assert(series.take(k).drop_last() =~= series.take(k - 1));
        assert(times.take(k).take(k - 1) =~= times.take(k - 1));
        assert(series.take(k).last() == series[k - 1]);
        assert(times.take(k)[k - 1] == times[k - 1]);
        lemma_ended_status(series[k - 1].status@);
        assert(upcoming_of(series.take(k), times.take(k)) =~= idx.filter(pred).map_values(mk));
    }
}

/// The upcoming releases of `series` are, in the order of the series, the
/// release of each series that has not ended ("Ended") and has a release
/// time, at that time, and nothing else.
proof fn lemma_upcoming_of_positions(series: Seq<SeriesMainInformation>, times: Seq<Option<i64>>)
    requires
        series.len() == times.len(),
    ensures
        upcoming_of(series, times) == releasing_positions(series, times, series.len() as int).map_values(
            |i: int| release_at(series, times, i),
        ),
{
    lemma_upcoming_of_prefix(series, times, series.len() as int);
    assert(series.take(series.len() as int) =~= series);
    assert(times.take(times.len() as int) =~= times);
}

/// What the upcoming releases hold, stated on the status text of each series
/// and the first episode of its list released after `now`: every series
/// that has not ended and has such an episode is listed with that
/// episode's release time, whatever else its status says; every listed
/// release is that of such a series; and the releases are exactly those of
/// the positions of such series, in the order of the series.
pub proof fn lemma_release_time_members(
    series: Seq<SeriesMainInformation>,
    lists: Seq<EpisodeList>,
    now: i64,
    r: Seq<UpcomingRelease>,
)
    requires
        series.len() == lists.len(),
        r == upcoming_of(series, release_times(lists, now)),
    ensures
        forall|i: int|
            0 <= i < series.len() && series[i].status@ != ended_text() && #[trigger] next_release_time(
                lists[i].episodes@,
                now,
            ) is Some ==> exists|k: int|
                0 <= k < r.len() && r[k].series == series[i] && r[k].release_time == next_release_time(
                    lists[i].episodes@,
                    now,
                )->0,
        forall|k: int|
            0 <= k < r.len() ==> exists|i: int|
                0 <= i < series.len() && #[trigger] r[k].series == series[i] && series[i].status@ != ended_text()
                    && next_release_time(lists[i].episodes@, now) == Some(r[k].release_time),
        r == releasing_positions(series, release_times(lists, now), series.len() as int).map_values(
            |i: int| release_at(series, release_times(lists, now), i),
        ),
        r.len() <= series.len(),
{
    let times = release_times(lists, now);
    lemma_upcoming_of_positions(series, times);
    assert(forall|i: int| 0 <= i < series.len() ==> times[i] == next_release_time(lists[i].episodes@, now));
    lemma_upcoming_of_members(series, times);
    assert forall|i: int|
        0 <= i < series.len() && series[i].status@ != ended_text() && #[trigger] next_release_time(
            lists[i].episodes@,
            now,
        ) is Some implies exists|k: int|
            0 <= k < r.len() && r[k].series == series[i] && r[k].release_time == next_release_time(
                lists[i].episodes@,
                now,
            )->0 by {
        assert(times[i] is Some);
    }
    assert forall|k: int| 0 <= k < r.len() implies exists|i: int|
        0 <= i < series.len() && #[trigger] r[k].series == series[i] && series[i].status@ != ended_text()
            && next_release_time(lists[i].episodes@, now) == Some(r[k].release_time) by {
        let i = choose|i: int|
            0 <= i < series.len() && #[trigger] r[k].series == series[i] && series[i].status@ != ended_text()
                && times[i] == Some(r[k].release_time);
        assert(times[i] == next_release_time(lists[i].episodes@, now));
    }
}

/// The series that have not ended and have an episode to be released after
/// `now`, each with that release; `episode_lists[i]` is the episode list of
/// `series_informations[i]`.
pub fn get_series_release_time(
    series_informations: Vec<SeriesMainInformation>,
    episode_lists: &Vec<EpisodeList>,
    now: i64,
) -> (r: Vec<UpcomingRelease>)
    requires
        series_informations@.len() == episode_lists@.len(),
    ensures
        r@ == upcoming_of(series_informations@, release_times(episode_lists@, now)),
{
    let ghost all = series_informations@;
    let ghost times = release_times(episode_lists@, now);
    let mut releases: Vec<UpcomingRelease> = Vec::new();
    let mut rest = series_informations;
    let count = rest.len();
    let mut k: usize = 0;
    while rest.len() > 0
        invariant
            k + rest@.len() == all.len(),
            all.len() == count,
            count == episode_lists@.len(),
            times == release_times(episode_lists@, now),
            rest@ == all.subrange(k as int, all.len() as int),
            releases@ == upcoming_of(all.take(k as int), times.take(k as int)),
        decreases rest@.len(),
    {
        let info = rest.remove(0);
        proof {
            assert(info == all[k as int]);
            assert(all.take(k + 1).drop_last() =~= all.take(k as int));
            assert(times.take(k + 1).take(k as int) =~= times.take(k as int));
            assert(times[k as int] == next_release_time(episode_lists@[k as int].episodes@, now));
        }
        let time = episode_lists[k].next_release_time(now);
        let status = SeriesStatus::new(&info);
        match time {
            Some(t) => {
                if status != SeriesStatus::Ended {
                    releases.push(UpcomingRelease { series: info, release_time: t });
                }
            },
            None => {},
        }
        proof {
            assert(rest@ =~= all.subrange(k + 1, all.len() as int));
        }
        k = k + 1;
    }
    proof {
        assert(all.take(k as int) =~= all);
        assert(times.take(k as int) =~= times);
    }
    releases
}

/// Whether the page shows its series or waits for them.
#[derive(Debug, Clone, Copy, PartialEq, Eq, Structural)]
pub enum LoadState {
    Loading,
    Loaded,
}

impl Default for LoadState {
    fn default() -> (s: Self)
        ensures
            s == LoadState::Loading,
    {
        LoadState::Loading
    }
}

#[derive(Debug)]
pub enum Message {
    /// The information of the tracked series arrived.
    SeriesInformationsReceived(Vec<SeriesMainInformation>),
    /// A series poster was pressed.
    SeriesPosterPressed(SeriesMainInformation),
    /// The series with an upcoming release arrived.
    UpcomingReleaseSeriesReceived(Vec<UpcomingRelease>),
}

/// What the caller has to do after the page handled a message.
#[derive(Debug)]
pub enum Action {
    Nothing,
    /// Load the information of the series with these ids; answer
    /// `SeriesInformationsReceived`.
    LoadSeriesInformations(Vec<u32>),
    /// Find the next release of the series with these ids; answer
    /// `UpcomingReleaseSeriesReceived`.
    LoadUpcomingReleases(Vec<u32>),
    /// Open the page of this series.
    OpenSeries(SeriesMainInformation),
}

/// The ids of the series.
pub open spec fn series_ids(series: Seq<SeriesMainInformation>) -> Seq<u32> {
    series.map_values(|s: SeriesMainInformation| s.id)
}

/// The ids of the series, in order.
pub fn ids_of(series: &[SeriesMainInformation]) -> (r: Vec<u32>)
    ensures
        r@ == series_ids(series@),
{
    let mut r: Vec<u32> = Vec::new();
    let mut i: usize = 0;
    while i < series.len()
        invariant
            i <= series@.len(),
            r@ == series_ids(series@.subrange(0, i as int)),
        decreases series@.len() - i,
    {
        r.push(series[i].id);
        proof {
            assert(series@.subrange(0, i + 1) =~= series@.subrange(0, i as int).push(series@[i as int]));
        }
        i = i + 1;
    }
    proof {
        assert(series@.subrange(0, i as int) =~= series@);
    }
    r
}

/// The state of the "My Shows" page.
#[derive(Debug)]
pub struct MyShowsTab {
    pub load_state: LoadState,
    /// The ids of the series the page was loaded for.
    pub series_ids: Vec<u32>,
    /// The series with an upcoming release, soonest first.
    pub upcoming_releases: Vec<UpcomingRelease>,
    /// The series shown.
    pub series: Vec<SeriesMainInformation>,
}

impl MyShowsTab {
    pub fn new() -> (t: Self)
        ensures
            t.load_state == LoadState::Loading,
            t.series_ids@.len() == 0,
            t.upcoming_releases@.len() == 0,
            t.series@.len() == 0,
    {
        Self {
            load_state: LoadState::Loading,
            series_ids: Vec::new(),
            upcoming_releases: Vec::new(),
            series: Vec::new(),
        }
    }

    /// Called when the page is opened, with the ids of the series now in the
    /// database: loads the series again only when they changed.
    pub fn refresh(&mut self, fresh_ids: Vec<u32>) -> (a: Action)
        ensures
            reload_needed(old(self).series@.len() == 0, old(self).series_ids@, fresh_ids@) ==> final(self).load_state
                == LoadState::Loading && final(self).series_ids@ == fresh_ids@ && (a matches Action::LoadSeriesInformations(ids)
                && ids@ == fresh_ids@) && final(self).series == old(self).series && final(self).upcoming_releases
                == old(self).upcoming_releases,
            !reload_needed(old(self).series@.len() == 0, old(self).series_ids@, fresh_ids@) ==> *final(self) == *old(self)
                && a is Nothing,
    {
        if needs_reload(self.series.len() == 0, self.series_ids.as_slice(), fresh_ids.as_slice()) {
            self.load_state = LoadState::Loading;
            let ids = vec_copy(&fresh_ids);
            self.series_ids = fresh_ids;
            Action::LoadSeriesInformations(ids)
        } else {
            Action::Nothing
        }
    }

    pub fn update(&mut self, message: Message) -> (a: Action)
        ensures
            message matches Message::SeriesInformationsReceived(infos) ==> final(self).load_state == LoadState::Loaded
                && final(self).series == infos && final(self).series_ids == old(self).series_ids
                && final(self).upcoming_releases == old(self).upcoming_releases && (a matches Action::LoadUpcomingReleases(
                ids) && ids@ == series_ids(infos@)),
            message matches Message::SeriesPosterPressed(info) ==> *final(self) == *old(self) && a == Action::OpenSeries(
                info),
            message matches Message::UpcomingReleaseSeriesReceived(upcoming) ==> a is Nothing && final(self).load_state
                == old(self).load_state && final(self).series == old(self).series && final(self).series_ids
                == old(self).series_ids && sorted_by_release_time(final(self).upcoming_releases@)
                && final(self).upcoming_releases@.to_multiset() == upcoming@.to_multiset()
                && keeps_order_of_equals(final(self).upcoming_releases@, upcoming@, release_key::<UpcomingRelease>()),
    {
        match message {
            Message::SeriesInformationsReceived(infos) => {
                self.load_state = LoadState::Loaded;
                let ids = ids_of(infos.as_slice());
                self.series = infos;
                Action::LoadUpcomingReleases(ids)
            },
            Message::SeriesPosterPressed(info) => Action::OpenSeries(info),
            Message::UpcomingReleaseSeriesReceived(upcoming) => {
                self.upcoming_releases = sort_by_release_time(upcoming);
                Action::Nothing
            },
        }
    }
}

/// A copy of the ids.
pub fn vec_copy(v: &Vec<u32>) -> (r: Vec<u32>)
    ensures
        r@ == v@,
{
    let mut r: Vec<u32> = Vec::new();
    let mut i: usize = 0;
    while i < v.len()
        invariant
            i <= v@.len(),
            r@ == v@.subrange(0, i as int),
        decreases v@.len() - i,
    {
        r.push(v[i]);
        proof {
            assert(v@.subrange(0, i + 1) =~= v@.subrange(0, i as int).push(v@[i as int]));
        }
        i = i + 1;
    }
    proof {
        assert(v@.subrange(0, i as int) =~= v@);
    }
    r
}

} // verus!
