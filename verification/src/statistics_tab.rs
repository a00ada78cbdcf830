//! The statistics tab: the time spent watching, the genres of the watched
//! series, and a banner per series ranked by watch time.

use vstd::prelude::*;

use crate::helpers::decimal;
use crate::name_order::{keeps_order_of_equals, lemma_with_key_insert, lemma_with_key_push, with_key};
use crate::helpers::push_decimal_usize;
use crate::helpers::time::{plurized_parts, split_minutes, text_parts, NaiveTime, TextParts};
use crate::series_information::{str_eq, SeriesMainInformation};
use crate::tab_searching::{is_shown, matched_ids, update_matches, Message as SearcherMessage, Searcher};
use crate::watchlist_tab::is_shown_spec;

verus! {

/// The sum of the average watch times, a missing one counting as zero.
pub open spec fn total_minutes(times: Seq<Option<u32>>) -> nat
    decreases times.len(),
{
    if times.len() == 0 {
        0
    } else {
        total_minutes(times.drop_last()) + match times.last() {
            Some(m) => m as nat,
            None => 0,
        }
    }
}

/// A prefix sums to at most the whole.
pub proof fn lemma_total_minutes_prefix(times: Seq<Option<u32>>, n: int)
    requires
        0 <= n <= times.len(),
    ensures
        total_minutes(times.take(n)) <= total_minutes(times),
    decreases times.len(),
{
    if n < times.len() {
        assert(times.drop_last().take(n) =~= times.take(n));
        lemma_total_minutes_prefix(times.drop_last(), n);
    } else {
        assert(times.take(n) =~= times);
    }
}

/// The time counter of the tab: the total in minutes and the same time in
/// years, months, days, hours and minutes.
pub struct TimeCount {
    pub total_minutes: u32,
    pub parts: TextParts,
}

/// The time spent watching series, from the average watch time of each.
pub fn time_count(times: &[Option<u32>]) -> (c: TimeCount)
    requires
        total_minutes(times@) <= u32::MAX,
    ensures
        c.total_minutes == total_minutes(times@),
        text_parts(c.parts) == plurized_parts(split_minutes(c.total_minutes as nat)),
{
    let mut total: u32 = 0;
    let mut i: usize = 0;
    while i < times.len()
        invariant
            i <= times@.len(),
            total_minutes(times@) <= u32::MAX,
            total == total_minutes(times@.take(i as int)),
        decreases times@.len() - i,
    {
        proof {
            assert(times@.take(i + 1).drop_last() =~= times@.take(i as int));
            lemma_total_minutes_prefix(times@, i + 1);
        }
        let minutes = match times[i] {
            Some(m) => m,
            None => 0,
        };
        total = total + minutes;
        i = i + 1;
    }
    proof {
        assert(times@.take(i as int) =~= times@);
    }
    let time = NaiveTime::new(total);
    TimeCount { total_minutes: total, parts: time.as_parts() }
}

/// All the genres of the series, in order.
pub open spec fn all_genres(series: Seq<SeriesMainInformation>) -> Seq<Seq<char>>
    decreases series.len(),
{
    if series.len() == 0 {
        Seq::empty()
    } else {
        all_genres(series.drop_last()) + series.last().genres@.map_values(|g: String| g@)
    }
}

/// How many times `genre` occurs in `genres`.
pub open spec fn occurrences(genres: Seq<Seq<char>>, genre: Seq<char>) -> nat
    decreases genres.len(),
{
    if genres.len() == 0 {
        0
    } else {
        occurrences(genres.drop_last(), genre) + if genres.last() == genre { 1nat } else { 0nat }
    }
}

/// The count of a genre is at most the number of genres.
pub proof fn lemma_occurrences_bounded(genres: Seq<Seq<char>>, genre: Seq<char>)
    ensures
        occurrences(genres, genre) <= genres.len(),
        !genres.contains(genre) ==> occurrences(genres, genre) == 0,
        genres.contains(genre) ==> occurrences(genres, genre) > 0,
    decreases genres.len(),
{
    if genres.len() > 0 {
        lemma_occurrences_bounded(genres.drop_last(), genre);
        if genres.contains(genre) && genres.last() != genre {
            let i = choose|i: int| 0 <= i < genres.len() && genres[i] == genre;
            assert(genres.drop_last()[i] == genre);
        }
        if genres.drop_last().contains(genre) {
            let i = choose|i: int| 0 <= i < genres.drop_last().len() && genres.drop_last()[i] == genre;
            assert(genres[i] == genre);
        }
    }
}

/// The table of genre counts: each genre of `genres` once, with the number
/// of times it occurs.
pub open spec fn counts_table(table: Seq<(String, usize)>, genres: Seq<Seq<char>>) -> bool {
    &&& forall|a: int, b: int| 0 <= a < b < table.len() ==> table[a].0@ != table[b].0@
    &&& forall|k: int| 0 <= k < table.len() ==> genres.contains(#[trigger] table[k].0@)
    &&& forall|k: int| 0 <= k < table.len() ==> #[trigger] table[k].1 == occurrences(genres, table[k].0@)
    &&& forall|i: int| 0 <= i < genres.len() ==> has_name(table, #[trigger] genres[i])
}

/// Whether the table has an entry for `genre`.
pub open spec fn has_name(table: Seq<(String, usize)>, genre: Seq<char>) -> bool {
    exists|k: int| 0 <= k < table.len() && #[trigger] table[k].0@ == genre
}

/// Counting in a longer list.
pub proof fn lemma_occurrences_push(genres: Seq<Seq<char>>, x: Seq<char>, genre: Seq<char>)
    ensures
        occurrences(genres.push(x), genre) == occurrences(genres, genre) + if x == genre { 1nat } else { 0nat },
{
    assert(genres.push(x).drop_last() =~= genres);
}

/// The genre counts come from the largest to the smallest.
pub open spec fn by_count_descending(table: Seq<(String, usize)>) -> bool {
    forall|a: int, b: int| 0 <= a < b < table.len() ==> table[a].1 >= table[b].1
}

/// Adds one occurrence of `genre` to the table.
fn count_genre(table: &mut Vec<(String, usize)>, genre: &String, Ghost(genres): Ghost<Seq<Seq<char>>>)
    requires
        counts_table(old(table)@, genres),
        genres.len() < usize::MAX,
    ensures
        counts_table(final(table)@, genres.push(genre@)),
{
    let ghost next = genres.push(genre@);
    proof {
        assert(next.drop_last() =~= genres);
        lemma_occurrences_bounded(genres, genre@);
    }
    let mut k: usize = 0;
    while k < table.len()
        invariant
            k <= table@.len(),
            counts_table(table@, genres),
            genres.len() < usize::MAX,
            next == genres.push(genre@),
            occurrences(genres, genre@) <= genres.len(),
            forall|j: int| 0 <= j < k ==> table@[j].0@ != genre@,
        decreases table@.len() - k,
    {
        if str_eq(table[k].0.as_str(), genre.as_str()) {
            let count = table[k].1;
            let name = table[k].0.clone();
            let ghost before = table@;
            table.set(k, (name, count + 1));
            proof {
                assert(table@ == before.update(k as int, (name, (count + 1) as usize)));
                assert(before[k as int].0@ == genre@);
                assert(next.last() == genre@);
                assert forall|j: int| 0 <= j < table@.len() implies #[trigger] table@[j].1 == occurrences(
                    next,
                    table@[j].0@,
                ) by {
                    assert(before[j].1 == occurrences(genres, before[j].0@));
                    lemma_occurrences_push(genres, genre@, table@[j].0@);
                    if j == k {
                        assert(table@[j].0@ == genre@);
                    } else {
                        assert(table@[j] == before[j]);
                        if j < k {
                            assert(before[j].0@ != before[k as int].0@);
                        } else {
                            assert(before[k as int].0@ != before[j].0@);
                        }
                    }
                }
                assert forall|j: int| 0 <= j < table@.len() implies next.contains(#[trigger] table@[j].0@) by {
                    assert(genres.contains(before[j].0@));
                    let i = choose|i: int| 0 <= i < genres.len() && genres[i] == before[j].0@;
                    assert(next[i] == before[j].0@);
                }
                assert forall|i: int| 0 <= i < next.len() implies has_name(table@, #[trigger] next[i]) by {
                    if i < genres.len() {
                        let j = choose|j: int| 0 <= j < before.len() && #[trigger] before[j].0@ == genres[i];
                        assert(table@[j].0@ == next[i]);
                    } else {
                        assert(table@[k as int].0@ == next[i]);
                    }
                }
            }
            return;
        }
        k = k + 1;
    }
    let ghost before = table@;
    table.push((genre.clone(), 1));
    proof {
        assert(!genres.contains(genre@)) by {
            if genres.contains(genre@) {
                let i = choose|i: int| 0 <= i < genres.len() && genres[i] == genre@;
                let j = choose|j: int| 0 <= j < before.len() && #[trigger] before[j].0@ == genres[i];
            }
        }
        assert forall|j: int| 0 <= j < table@.len() implies #[trigger] table@[j].1 == occurrences(
            next,
            table@[j].0@,
        ) by {
            lemma_occurrences_push(genres, genre@, table@[j].0@);
            if j < before.len() {
                assert(before[j].1 == occurrences(genres, before[j].0@));
            } else {
                lemma_occurrences_bounded(genres, genre@);
            }
        }
        assert forall|j: int| 0 <= j < table@.len() implies next.contains(#[trigger] table@[j].0@) by {
            if j < before.len() {
                assert(genres.contains(before[j].0@));
                let i = choose|i: int| 0 <= i < genres.len() && genres[i] == before[j].0@;
                assert(next[i] == before[j].0@);
            } else {
                assert(next[genres.len() as int] == genre@);
            }
        }
        assert forall|i: int| 0 <= i < next.len() implies has_name(table@, #[trigger] next[i]) by {
            if i < genres.len() {
                let j = choose|j: int| 0 <= j < before.len() && #[trigger] before[j].0@ == genres[i];
                assert(table@[j].0@ == next[i]);
            } else {
                assert(table@[before.len() as int].0@ == next[i]);
            }
        }
    }
}

/// The genres of the series, each once with the number of times it occurs,
/// from the most to the least frequent (genres as frequent as each other
/// come in no particular order).
pub fn genre_stats(series_infos: &[&SeriesMainInformation]) -> (r: Vec<(String, usize)>)
    requires
        all_genres(series_infos@.map_values(|s: &SeriesMainInformation| *s)).len() < usize::MAX,
    ensures
        counts_table(r@, all_genres(series_infos@.map_values(|s: &SeriesMainInformation| *s))),
        by_count_descending(r@),
{
    let ghost series = series_infos@.map_values(|s: &SeriesMainInformation| *s);
    let mut table: Vec<(String, usize)> = Vec::new();
    let mut i: usize = 0;
    while i < series_infos.len()
        invariant
            i <= series_infos@.len(),
            series == series_infos@.map_values(|s: &SeriesMainInformation| *s),
            all_genres(series).len() < usize::MAX,
            counts_table(table@, all_genres(series.take(i as int))),
        decreases series_infos@.len() - i,
    {
        let info = series_infos[i];
        proof {
            assert(series.take(i + 1).drop_last() =~= series.take(i as int));
            assert(series.take(i + 1).last() == *info);
            lemma_all_genres_prefix(series, i + 1);
        }
        let mut j: usize = 0;
        while j < info.genres.len()
            invariant
                j <= info.genres@.len(),
                i < series_infos@.len(),
                all_genres(series.take(i as int)).len() + info.genres@.len() <= all_genres(series).len(),
                all_genres(series).len() < usize::MAX,
                counts_table(
                    table@,
                    all_genres(series.take(i as int)) + info.genres@.take(j as int).map_values(|g: String| g@),
                ),
            decreases info.genres@.len() - j,
        {
            let ghost seen = all_genres(series.take(i as int)) + info.genres@.take(j as int).map_values(
                |g: String| g@,
            );
            count_genre(&mut table, &info.genres[j], Ghost(seen));
            proof {
                assert(seen.push(info.genres@[j as int]@) =~= all_genres(series.take(i as int))
                    + info.genres@.take(j + 1).map_values(|g: String| g@));
            }
            j = j + 1;
        }
        proof {
            assert(info.genres@.take(j as int) =~= info.genres@);
            assert(all_genres(series.take(i + 1)) =~= all_genres(series.take(i as int))
                + info.genres@.map_values(|g: String| g@));
        }
        i = i + 1;
    }
    proof {
        assert(series.take(i as int) =~= series);
    }
    sort_by_count_descending(table)
}

/// A prefix of the series has at most as many genres as all of them.
pub proof fn lemma_all_genres_prefix(series: Seq<SeriesMainInformation>, n: int)
    requires
        0 < n <= series.len(),
    ensures
        all_genres(series.take(n - 1)).len() + series[n - 1].genres@.len() <= all_genres(series).len(),
    decreases series.len(),
{
    assert(series.take(n).drop_last() =~= series.take(n - 1));
    if n < series.len() {
        assert(series.drop_last().take(n) =~= series.take(n));
        assert(series.drop_last().take(n - 1) =~= series.take(n - 1));
        lemma_all_genres_prefix(series.drop_last(), n);
    } else {
        assert(series.take(n) =~= series);
    }
}

/// The table sorted from the largest count to the smallest.
fn sort_by_count_descending(table: Vec<(String, usize)>) -> (r: Vec<(String, usize)>)
    ensures
        by_count_descending(r@),
        r@.to_multiset() == table@.to_multiset(),
        forall|g: Seq<Seq<char>>| counts_table(table@, g) ==> counts_table(r@, g),
{
    let mut sorted: Vec<(String, usize)> = Vec::new();
    let mut rest = table;
    let ghost unsorted = rest@;
    let mut taken: usize = 0;
    let n = rest.len();
    proof {
        assert(unsorted.subrange(0, 0) =~= Seq::<(String, usize)>::empty());
    }
    while rest.len() > 0
        invariant
            taken + rest@.len() == unsorted.len(),
            unsorted.len() == n,
            rest@ == unsorted.subrange(taken as int, unsorted.len() as int),
            by_count_descending(sorted@),
            sorted@.to_multiset() == unsorted.subrange(0, taken as int).to_multiset(),
        decreases rest@.len(),
    {
        let item = rest.remove(0);
        let mut pos: usize = 0;
        while pos < sorted.len() && sorted[pos].1 >= item.1
            invariant
                pos <= sorted@.len(),
                forall|k: int| 0 <= k < pos ==> sorted@[k].1 >= item.1,
            decreases sorted@.len() - pos,
        {
            pos = pos + 1;
        }
        let ghost before = sorted@;
        sorted.insert(pos, item);
        proof {
            broadcast use vstd::seq_lib::to_multiset_insert;
            assert(sorted@ == before.insert(pos as int, item));
            assert forall|a: int, b: int| 0 <= a < b < sorted@.len() implies sorted@[a].1 >= sorted@[b].1 by {
                if b < pos {
                } else if b == pos {
                } else if a < pos {
                    assert(sorted@[b] == before[b - 1]);
                } else if a == pos {
                    assert(sorted@[b] == before[b - 1]);
                } else {
                    assert(sorted@[a] == before[a - 1]);
                    assert(sorted@[b] == before[b - 1]);
                }
            }
            assert(item == unsorted[taken as int]);
            assert(unsorted.subrange(0, taken + 1) =~= unsorted.subrange(0, taken as int).push(item));
            vstd::seq_lib::to_multiset_build(unsorted.subrange(0, taken as int), item);
            assert(rest@ =~= unsorted.subrange(taken + 1, unsorted.len() as int));
        }
        taken = taken + 1;
    }
    proof {
        assert(unsorted.subrange(0, taken as int) =~= unsorted);
        assert forall|g: Seq<Seq<char>>| counts_table(unsorted, g) implies counts_table(sorted@, g) by {
            lemma_permutation_keeps_table(unsorted, sorted@, g);
        }
    }
    sorted
}

/// An element of a reordering is an element of the sequence reordered.
pub proof fn lemma_permutation_contains<T>(a: Seq<T>, b: Seq<T>, k: int)
    requires
        a.to_multiset() == b.to_multiset(),
        0 <= k < b.len(),
    ensures
        exists|j: int| 0 <= j < a.len() && a[j] == b[k],
{
    vstd::seq_lib::to_multiset_contains(b, b[k]);
    vstd::seq_lib::to_multiset_contains(a, b[k]);
    assert(b.contains(b[k]));
}

/// A reordering of a genre table is a genre table of the same genres.
#[verifier::rlimit(30)]
pub proof fn lemma_permutation_keeps_table(a: Seq<(String, usize)>, b: Seq<(String, usize)>, genres: Seq<Seq<char>>)
    requires
        counts_table(a, genres),
        a.to_multiset() == b.to_multiset(),
    ensures
        counts_table(b, genres),
{
    assert forall|k: int| 0 <= k < b.len() implies genres.contains(#[trigger] b[k].0@) by {
        lemma_permutation_contains(a, b, k);
        let j = choose|j: int| 0 <= j < a.len() && a[j] == b[k];
        assert(genres.contains(a[j].0@));
    }
    assert forall|k: int| 0 <= k < b.len() implies #[trigger] b[k].1 == occurrences(genres, b[k].0@) by {
        lemma_permutation_contains(a, b, k);
        let j = choose|j: int| 0 <= j < a.len() && a[j] == b[k];
        assert(a[j].1 == occurrences(genres, a[j].0@));
    }
    assert forall|i: int| 0 <= i < genres.len() implies has_name(b, #[trigger] genres[i]) by {
        let j = choose|j: int| 0 <= j < a.len() && #[trigger] a[j].0@ == genres[i];
        lemma_permutation_contains(b, a, j);
        let k = choose|k: int| 0 <= k < b.len() && b[k] == a[j];
        assert(b[k].0@ == genres[i]);
    }
    assert forall|x: int, y: int| 0 <= x < y < b.len() implies b[x].0@ != b[y].0@ by {
        lemma_permutation_names_distinct(a, b, x, y);
    }
}

/// A reordering of a table with distinct names has distinct names.
pub proof fn lemma_permutation_names_distinct(a: Seq<(String, usize)>, b: Seq<(String, usize)>, x: int, y: int)
    requires
        forall|p: int, q: int| 0 <= p < q < a.len() ==> a[p].0@ != a[q].0@,
        a.to_multiset() == b.to_multiset(),
        0 <= x < y < b.len(),
    ensures
        b[x].0@ != b[y].0@,
{
    lemma_permutation_contains(a, b, x);
    lemma_permutation_contains(a, b, y);
    let jx = choose|j: int| 0 <= j < a.len() && a[j] == b[x];
    let jy = choose|j: int| 0 <= j < a.len() && a[j] == b[y];
    if b[x].0@ == b[y].0@ {
        if jx == jy {
            lemma_count_two_positions(b, x, y);
            lemma_distinct_count_one(a, jx);
            assert(false);
        } else if jx < jy {
            assert(a[jx].0@ != a[jy].0@);
        } else {
            assert(a[jy].0@ != a[jx].0@);
        }
    }
}

/// An element found at two positions is counted at least twice.
pub proof fn lemma_count_two_positions<T>(s: Seq<T>, x: int, y: int)
    requires
        0 <= x < y < s.len(),
        s[x] == s[y],
    ensures
        s.to_multiset().count(s[x]) >= 2,
    decreases s.len(),
{
    broadcast use vstd::seq_lib::group_to_multiset_ensures;
    if y < s.len() - 1 {
        lemma_count_two_positions(s.drop_last(), x, y);
        assert(s.drop_last().to_multiset().count(s[x]) <= s.to_multiset().count(s[x])) by {
            assert(s =~= s.drop_last().push(s.last()));
            vstd::seq_lib::to_multiset_build(s.drop_last(), s.last());
        }
    } else {
        assert(s =~= s.drop_last().push(s.last()));
        vstd::seq_lib::to_multiset_build(s.drop_last(), s.last());
        assert(s.drop_last()[x] == s[x]);
        assert(s.drop_last().contains(s[x]));
    }
}

/// In a genre table each entry is counted once.
pub proof fn lemma_distinct_count_one(a: Seq<(String, usize)>, j: int)
    requires
        0 <= j < a.len(),
        forall|x: int, y: int| 0 <= x < y < a.len() ==> a[x].0@ != a[y].0@,
    ensures
        a.to_multiset().count(a[j]) == 1,
    decreases a.len(),
{
    broadcast use vstd::seq_lib::group_to_multiset_ensures;
    assert(a =~= a.drop_last().push(a.last()));
    vstd::seq_lib::to_multiset_build(a.drop_last(), a.last());
    if j < a.len() - 1 {
        lemma_distinct_count_one(a.drop_last(), j);
        assert(a.last() != a[j]) by {
            assert(a[j].0@ != a[a.len() - 1].0@);
        }
    } else {
        assert(!a.drop_last().contains(a[j])) by {
            if a.drop_last().contains(a[j]) {
                let x = choose|x: int| 0 <= x < a.drop_last().len() && a.drop_last()[x] == a[j];
                assert(a[x].0@ != a[j].0@);
            }
        }
    }
}

/// The order of watch times: an unknown time comes after every known one.
pub open spec fn time_key(time: Option<u32>) -> int {
    match time {
        Some(m) => m as int,
        None => -1,
    }
}

/// Whether `a` is at least as much watch time as `b`.
fn time_at_least(a: Option<u32>, b: Option<u32>) -> (r: bool)
    ensures
        r == (time_key(a) >= time_key(b)),
{
    match (a, b) {
        (Some(x), Some(y)) => x >= y,
        (Some(_), None) => true,
        (None, Some(_)) => false,
        (None, None) => true,
    }
}

/// A watched series with its average watch time.
#[derive(Debug)]
pub struct SeriesTime {
    pub series: SeriesMainInformation,
    /// In minutes, when known.
    pub time: Option<u32>,
}

/// The series come from the most watched to the least.
pub open spec fn by_time_descending(items: Seq<SeriesTime>) -> bool {
    forall|a: int, b: int| 0 <= a < b < items.len() ==> time_key(items[a].time) >= time_key(items[b].time)
}

/// The watch time of a series, as the key it is sorted by.
pub open spec fn watch_time_key() -> spec_fn(SeriesTime) -> Option<u32> {
    |x: SeriesTime| x.time
}

/// The series sorted from the most watched to the least, those watched as
/// much in the order they came.
pub fn sort_by_time_descending(items: Vec<SeriesTime>) -> (r: Vec<SeriesTime>)
    ensures
        by_time_descending(r@),
        r@.to_multiset() == items@.to_multiset(),
        keeps_order_of_equals(r@, items@, watch_time_key()),
{
    let mut sorted: Vec<SeriesTime> = Vec::new();
    let mut rest = items;
    let ghost unsorted = rest@;
    let mut taken: usize = 0;
    let n = rest.len();
    proof {
        assert(unsorted.subrange(0, 0) =~= Seq::<SeriesTime>::empty());
    }
    while rest.len() > 0
        invariant
            taken + rest@.len() == unsorted.len(),
            unsorted.len() == n,
            rest@ == unsorted.subrange(taken as int, unsorted.len() as int),
            by_time_descending(sorted@),
            sorted@.to_multiset() == unsorted.subrange(0, taken as int).to_multiset(),
            keeps_order_of_equals(sorted@, unsorted.subrange(0, taken as int), watch_time_key()),
        decreases rest@.len(),
    {
        let item = rest.remove(0);
        let mut pos: usize = 0;
        while pos < sorted.len() && time_at_least(sorted[pos].time, item.time)
            invariant
                pos <= sorted@.len(),
                forall|k: int| 0 <= k < pos ==> time_key(sorted@[k].time) >= time_key(item.time),
            decreases sorted@.len() - pos,
        {
            pos = pos + 1;
        }
        let ghost before = sorted@;
        sorted.insert(pos, item);
        proof {
            broadcast use vstd::seq_lib::to_multiset_insert;
            assert(sorted@ == before.insert(pos as int, item));
            assert forall|a: int, b: int| 0 <= a < b < sorted@.len() implies time_key(sorted@[a].time) >= time_key(
                sorted@[b].time,
            ) by {
                if b < pos {
                } else if b == pos {
                } else if a < pos {
                    assert(sorted@[b] == before[b - 1]);
                } else if a == pos {
                    assert(sorted@[b] == before[b - 1]);
                } else {
                    assert(sorted@[a] == before[a - 1]);
                    assert(sorted@[b] == before[b - 1]);
                }
            }
            assert(item == unsorted[taken as int]);
            assert(unsorted.subrange(0, taken + 1) =~= unsorted.subrange(0, taken as int).push(item));
            vstd::seq_lib::to_multiset_build(unsorted.subrange(0, taken as int), item);
            assert(rest@ =~= unsorted.subrange(taken + 1, unsorted.len() as int));
            let key = watch_time_key();
            assert forall|j: int| pos <= j < before.len() implies key(#[trigger] before[j]) != key(item) by {
                assert(time_key(before[pos as int].time) >= time_key(before[j].time));
            }
            assert forall|k: Option<u32>| #[trigger] with_key(sorted@, key, k) == with_key(
                unsorted.subrange(0, taken + 1),
                key,
                k,
            ) by {
                lemma_with_key_insert(before, pos as int, item, key, k);
                lemma_with_key_push(unsorted.subrange(0, taken as int), item, key, k);
                assert(with_key(before, key, k) == with_key(unsorted.subrange(0, taken as int), key, k));
            }
        }
        taken = taken + 1;
    }
    proof {
        assert(unsorted.subrange(0, taken as int) =~= unsorted);
    }
    sorted
}

/// The banner of a watched series: its rank and its watch time.
#[derive(Debug)]
pub struct SeriesBanner {
    pub index: usize,
    pub series: SeriesMainInformation,
    pub watch_time: Option<u32>,
}

/// `<rank>: <name>`, the rank counting from one.
pub open spec fn banner_title_text(index: nat, name: Seq<char>) -> Seq<char> {
    decimal(index + 1) + ": "@ + name
}

impl SeriesBanner {
    pub fn new(index: usize, series: SeriesMainInformation, watch_time: Option<u32>) -> (b: Self)
        ensures
            b.index == index,
            b.series == series,
            b.watch_time == watch_time,
    {
        Self { index, series, watch_time }
    }

    /// The title of the banner.
    pub fn title(&self) -> (s: String)
        requires
            self.index < usize::MAX,
        ensures
            s@ == banner_title_text(self.index as nat, self.series.name@),
    {
        let mut s = String::new();
        push_decimal_usize(&mut s, self.index + 1);
        s.append(": ");
        s.append(self.series.name.as_str());
        proof {
            reveal_strlit(": ");
        }
        s
    }

    /// The watch time in years, months, days, hours and minutes, when known.
    pub fn time_parts(&self) -> (p: Option<TextParts>)
        ensures
            match self.watch_time {
                Some(t) => p matches Some(parts) && text_parts(parts) == plurized_parts(split_minutes(t as nat)),
                None => p is None,
            },
    {
        match self.watch_time {
            Some(t) => Some(NaiveTime::new(t).as_parts()),
            None => None,
        }
    }
}

#[derive(Debug)]
pub enum Message {
    /// The watched series arrived with their average watch times.
    SeriesInfosAndTimeReceived(Vec<SeriesTime>),
    /// The banner at this position was pressed.
    SeriesBannerSelected(usize),
    Searcher(SearcherMessage),
}

/// What the caller has to do after the tab handled a message.
#[derive(Debug)]
pub enum Action {
    Nothing,
    /// Open the page of the series with this id.
    OpenSeries(u32),
}

/// What the list of the tab shows.
#[derive(Debug)]
pub enum StatisticsView {
    /// No series was watched: "Your watched series will appear here".
    Empty,
    /// No series matches the search: "No matches found!".
    NoMatches,
    /// The positions of the banners shown, in order.
    Banners(Vec<usize>),
}

/// The statistics tab.
#[derive(Debug)]
pub struct StatisticsTab {
    /// The watched series with their watch times, as they came.
    pub series_infos_and_time: Vec<SeriesTime>,
    /// The banners, from the most watched series to the least.
    pub series_banners: Vec<SeriesBanner>,
    pub matched_id_collection: Option<Vec<u32>>,
    pub searcher: Searcher,
}

/// The series and watch time of each banner.
pub open spec fn banner_times(banners: Seq<SeriesBanner>) -> Seq<SeriesTime> {
    banners.map_values(|b: SeriesBanner| SeriesTime { series: b.series, time: b.watch_time })
}

/// What the tab does with `message`: the tab after it and the action.
pub open spec fn statistics_step(tab: StatisticsTab, message: Message, after: StatisticsTab, a: Action) -> bool {
    match message {
        Message::SeriesInfosAndTimeReceived(items) => {
            &&& a is Nothing
            &&& after.series_banners@.len() == items@.len()
            &&& forall|i: int| 0 <= i < items@.len() ==> (#[trigger] after.series_banners@[i]).index == i
            &&& by_time_descending(banner_times(after.series_banners@))
            &&& banner_times(after.series_banners@).to_multiset() == items@.to_multiset()
            &&& keeps_order_of_equals(banner_times(after.series_banners@), items@, watch_time_key())
            &&& after.series_infos_and_time@.len() == items@.len()
            &&& forall|i: int| 0 <= i < items@.len() ==> same_series_time(#[trigger] after.series_infos_and_time@[i], items@[i])
            &&& after.matched_id_collection == tab.matched_id_collection
            &&& after.searcher == tab.searcher
        },
        Message::SeriesBannerSelected(i) => a == Action::OpenSeries(tab.series_banners@[i as int].series.id) && after
            == tab,
        Message::Searcher(SearcherMessage::SearchTermChanged(term)) => {
            &&& a is Nothing
            &&& after.searcher.term() == term@
            &&& after.searcher.placeholder_text() == tab.searcher.placeholder_text()
            &&& after.series_banners == tab.series_banners
            &&& after.series_infos_and_time == tab.series_infos_and_time
            &&& if term@.len() == 0 {
                after.matched_id_collection is None
            } else {
                after.matched_id_collection matches Some(ids) && ids@ == matched_ids(
                    term@,
                    banner_series(tab.series_banners@),
                )
            }
        },
    }
}

/// The series information of the banners.
pub open spec fn banner_series<'a>(banners: Seq<SeriesBanner>) -> Seq<&'a SeriesMainInformation> {
    banners.map_values(|b: SeriesBanner| &b.series)
}

/// Whether `a` is a copy of `b`: the same series information, with a list
/// of genres holding the same names, and the same time.
pub open spec fn same_series_time(a: SeriesTime, b: SeriesTime) -> bool {
    &&& a.series.id == b.series.id
    &&& a.series.name == b.series.name
    &&& a.series.status == b.series.status
    &&& a.series.genres@ == b.series.genres@
    &&& a.series.average_runtime == b.series.average_runtime
    &&& a.time == b.time
}

/// Copies of the series and their times.
fn duplicate_series_times(items: &Vec<SeriesTime>) -> (r: Vec<SeriesTime>)
    ensures
        r@.len() == items@.len(),
        forall|i: int| 0 <= i < items@.len() ==> same_series_time(#[trigger] r@[i], items@[i]),
{
    let mut r: Vec<SeriesTime> = Vec::new();
    let mut i: usize = 0;
    while i < items.len()
        invariant
            i <= items@.len(),
            r@.len() == i,
            forall|j: int| 0 <= j < i ==> same_series_time(#[trigger] r@[j], items@[j]),
        decreases items@.len() - i,
    {
        r.push(SeriesTime { series: items[i].series.duplicate(), time: items[i].time });
        i = i + 1;
    }
    r
}

impl StatisticsTab {
    pub fn new() -> (t: Self)
        ensures
            t.series_infos_and_time@.len() == 0,
            t.series_banners@.len() == 0,
            t.matched_id_collection is None,
            t.searcher.term() == Seq::<char>::empty(),
            t.searcher.placeholder_text() == "Search Statistics"@,
    {
        proof {
            reveal_strlit("Search Statistics");
        }
        Self {
            series_infos_and_time: Vec::new(),
            series_banners: Vec::new(),
            matched_id_collection: None,
            searcher: Searcher::new(String::from_str("Search Statistics")),
        }
    }

    pub fn update(&mut self, message: Message) -> (a: Action)
        requires
            message matches Message::SeriesBannerSelected(i) ==> i < old(self).series_banners@.len(),
        ensures
            statistics_step(*old(self), message, *final(self), a),
    {
        match message {
            Message::SeriesInfosAndTimeReceived(items) => {
                self.series_infos_and_time = duplicate_series_times(&items);
                let sorted = sort_by_time_descending(items);
                proof {
                    sorted@.to_multiset_ensures();
                    items@.to_multiset_ensures();
                }
                let ghost all = sorted@;
                let mut banners: Vec<SeriesBanner> = Vec::new();
                let mut rest = sorted;
                let count = rest.len();
                let mut k: usize = 0;
                while rest.len() > 0
                    invariant
                        k + rest@.len() == all.len(),
                        all.len() == count,
                        rest@ == all.subrange(k as int, all.len() as int),
                        banners@.len() == k,
                        forall|j: int| 0 <= j < k ==> {
                            &&& (#[trigger] banners@[j]).index == j
                            &&& banners@[j].series == all[j].series
                            &&& banners@[j].watch_time == all[j].time
                        },
                    decreases rest@.len(),
                {
                    let item = rest.remove(0);
                    proof {
                        assert(item == all[k as int]);
                    }
                    banners.push(SeriesBanner::new(k, item.series, item.time));
                    proof {
                        assert(rest@ =~= all.subrange(k + 1, all.len() as int));
                    }
                    k = k + 1;
                }
                proof {
                    let back = banners@.map_values(|b: SeriesBanner| SeriesTime { series: b.series, time: b.watch_time });
                    assert(back =~= all);
                    assert(banner_times(banners@) =~= all);
                }
                self.series_banners = banners;
                Action::Nothing
            },
            Message::SeriesBannerSelected(index) => Action::OpenSeries(self.series_banners[index].series.id),
            Message::Searcher(message) => {
                self.searcher.update(message);
                let mut collection: Vec<&SeriesMainInformation> = Vec::new();
                let mut i: usize = 0;
                while i < self.series_banners.len()
                    invariant
                        i <= self.series_banners@.len(),
                        collection@ == banner_series(self.series_banners@.take(i as int)),
                    decreases self.series_banners@.len() - i,
                {
                    collection.push(&self.series_banners[i].series);
                    proof {
                        assert(collection@ =~= banner_series(self.series_banners@.take(i + 1)));
                    }
                    i = i + 1;
                }
                proof {
                    assert(self.series_banners@.take(i as int) =~= self.series_banners@);
                }
                let mut matches: Option<Vec<u32>> = None;
                update_matches(&mut matches, self.searcher.current_search_term(), collection.as_slice());
                self.matched_id_collection = matches;
                Action::Nothing
            },
        }
    }

    /// What the list of the tab shows.
    pub fn view_state(&self) -> (v: StatisticsView)
        ensures
            self.series_banners@.len() == 0 ==> v is Empty,
            self.series_banners@.len() > 0 ==> match v {
                StatisticsView::Banners(shown) => shown@.len() > 0 && (forall|k: int|
                    0 <= k < shown@.len() ==> shown@[k] < self.series_banners@.len() && is_shown_spec(
                        self.matched_id_collection,
                        self.series_banners@[shown@[k] as int].series.id,
                    )) && (forall|i: int|
                    0 <= i < self.series_banners@.len() && is_shown_spec(
                        self.matched_id_collection,
                        #[trigger] self.series_banners@[i].series.id,
                    ) ==> shown@.contains(i as usize)) && (forall|a: int, b: int|
                    0 <= a < b < shown@.len() ==> shown@[a] < shown@[b]),
                StatisticsView::NoMatches => forall|i: int|
                    0 <= i < self.series_banners@.len() ==> !is_shown_spec(
                        self.matched_id_collection,
                        #[trigger] self.series_banners@[i].series.id,
                    ),
                StatisticsView::Empty => false,
            },
    {
        if self.series_banners.len() == 0 {
            return StatisticsView::Empty;
        }
        let mut shown: Vec<usize> = Vec::new();
        let mut i: usize = 0;
        while i < self.series_banners.len()
            invariant
                i <= self.series_banners@.len(),
                forall|a: int, b: int| 0 <= a < b < shown@.len() ==> shown@[a] < shown@[b],
                forall|k: int| 0 <= k < shown@.len() ==> shown@[k] < i && is_shown_spec(
                    self.matched_id_collection,
                    self.series_banners@[shown@[k] as int].series.id,
                ),
                forall|j: int| 0 <= j < i && is_shown_spec(
                    self.matched_id_collection,
                    #[trigger] self.series_banners@[j].series.id,
                ) ==> shown@.contains(j as usize),
            decreases self.series_banners@.len() - i,
        {
            if is_shown(&self.matched_id_collection, self.series_banners[i].series.id) {
                let ghost old_shown = shown@;
                shown.push(i);
                proof {
                    assert forall|j: int| 0 <= j < i + 1 && is_shown_spec(
                        self.matched_id_collection,
                        #[trigger] self.series_banners@[j].series.id,
                    ) implies shown@.contains(j as usize) by {
                        if j < i {
                            let k = choose|k: int| 0 <= k < old_shown.len() && old_shown[k] == j as usize;
                            assert(shown@[k] == j as usize);
                        } else {
                            assert(shown@[old_shown.len() as int] == i);
                        }
                    }
                }
            }
            i = i + 1;
        }
        if shown.len() == 0 {
            proof {
                assert forall|j: int| 0 <= j < self.series_banners@.len() implies !is_shown_spec(
                    self.matched_id_collection,
                    #[trigger] self.series_banners@[j].series.id,
                ) by {
                    if is_shown_spec(self.matched_id_collection, self.series_banners@[j].series.id) {
                        assert(shown@.contains(j as usize));
                    }
                }
            }
            StatisticsView::NoMatches
        } else {
            StatisticsView::Banners(shown)
        }
    }
}

} // verus!
