//! Time related helpers: splitting a number of minutes into years, months,
//! days, hours and minutes.

use smallvec::SmallVec;
use vstd::prelude::*;

use crate::helpers::{decimal, push_decimal};

verus! {

/// A unit of time, from the largest to the smallest.
#[derive(Debug, Clone, Copy, PartialEq, Eq, Structural)]
pub enum TimeKind {
    Year,
    Month,
    Day,
    Hour,
    Minute,
}

impl TimeKind {
    /// The name under which the unit is shown.
    pub open spec fn name(self) -> Seq<char> {
        match self {
            TimeKind::Year => seq!['Y', 'e', 'a', 'r'],
            TimeKind::Month => seq!['M', 'o', 'n', 't', 'h'],
            TimeKind::Day => seq!['D', 'a', 'y'],
            TimeKind::Hour => seq!['H', 'o', 'u', 'r'],
            TimeKind::Minute => seq!['M', 'i', 'n', 'u', 't', 'e'],
        }
    }

    /// The name of the unit (`"Year"`, `"Month"`, ...).
    pub fn to_string(&self) -> (s: String)
        ensures
            s@ == self.name(),
    {
        proof {
            reveal_strlit("Year");
            reveal_strlit("Month");
            reveal_strlit("Day");
            reveal_strlit("Hour");
            reveal_strlit("Minute");
        }
        let time_str = match self {
            TimeKind::Year => "Year",
            TimeKind::Month => "Month",
            TimeKind::Day => "Day",
            TimeKind::Hour => "Hour",
            TimeKind::Minute => "Minute",
        };
        String::from_str(time_str)
    }
}

/// A number of units of one kind of time.
#[derive(Debug, PartialEq, Eq, Structural)]
pub struct NaiveDuration {
    pub time_value: u32,
    pub time_kind: TimeKind,
}

/// The text of a time value with its unit name, plural when the value is above one.
pub open spec fn plural_text(time_value: nat, time_text: Seq<char>) -> Seq<char> {
    if time_value > 1 {
        time_text.push('s')
    } else {
        time_text
    }
}

impl NaiveDuration {
    pub fn new(time_value: u32, time_kind: TimeKind) -> (d: Self)
        ensures
            d.time_value == time_value,
            d.time_kind == time_kind,
    {
        Self { time_kind, time_value }
    }

    /// The value and the pluralised unit name of the duration.
    pub fn plurized(&self) -> (r: (u32, String))
        ensures
            r.0 == self.time_value,
            r.1@ == plural_text(self.time_value as nat, self.time_kind.name()),
    {
        let kind = self.time_kind.to_string();
        plurize_time(self.time_value, kind.as_str())
    }
}

/// Takes the time and its name i.e week, day, hour and concatenates the two
/// terms, handling the case where the time is above 1 (plural).
pub fn plurize_time(time_value: u32, time_text: &str) -> (r: (u32, String))
    ensures
        r.0 == time_value,
        r.1@ == plural_text(time_value as nat, time_text@),
{
    let mut word = String::from_str(time_text);
    if time_value > 1 {
        proof {
            reveal_strlit("s");
        }
        word.append("s");
    }
    proof {
        assert(word@ =~= plural_text(time_value as nat, time_text@));
    }
    (time_value, word)
}

/// The durations of a time, held in a small vector of five inline slots.
#[verifier::external_body]
pub struct DurationParts {
    parts: SmallVec<[NaiveDuration; 5]>,
}

/// Values with their unit texts, held in a small vector of five inline slots.
#[verifier::external_body]
pub struct TextParts {
    parts: SmallVec<[(u32, String); 5]>,
}

/// The durations held, in order.
pub uninterp spec fn duration_parts(v: DurationParts) -> Seq<NaiveDuration>;

/// The pairs of value and unit text held, in order.
pub uninterp spec fn text_parts(v: TextParts) -> Seq<(u32, Seq<char>)>;

/// `SmallVec::new`: an empty vector.
#[verifier::external_body]
fn new_duration_parts() -> (v: DurationParts)
    ensures
        duration_parts(v) == Seq::<NaiveDuration>::empty(),
{
    DurationParts { parts: SmallVec::new() }
}

/// `SmallVec::push`: appends `d` at the end.
#[verifier::external_body]
fn push_duration_part(v: &mut DurationParts, d: NaiveDuration)
    ensures
        duration_parts(*final(v)) == duration_parts(*old(v)).push(d),
{
    v.parts.push(d)
}

/// `SmallVec::len`: the number of durations held.
#[verifier::external_body]
fn duration_parts_len(v: &DurationParts) -> (n: usize)
    ensures
        n == duration_parts(*v).len(),
{
    v.parts.len()
}

/// `SmallVec` indexing: the duration at position `i`.
#[verifier::external_body]
fn duration_part_at(v: &DurationParts, i: usize) -> (d: &NaiveDuration)
    requires
        i < duration_parts(*v).len(),
    ensures
        *d == duration_parts(*v)[i as int],
{
    &v.parts[i]
}

/// `SmallVec::new`: an empty vector.
#[verifier::external_body]
fn new_text_parts() -> (v: TextParts)
    ensures
        text_parts(v) == Seq::<(u32, Seq<char>)>::empty(),
{
    TextParts { parts: SmallVec::new() }
}

/// `SmallVec::push`: appends `p` at the end.
#[verifier::external_body]
fn push_text_part(v: &mut TextParts, p: (u32, String))
    ensures
        text_parts(*final(v)) == text_parts(*old(v)).push((p.0, p.1@)),
{
    v.parts.push(p)
}

impl DurationParts {
    /// `SmallVec::into_vec`: the durations in a `Vec`.
    #[verifier::external_body]
    pub fn into_vec(self) -> (v: Vec<NaiveDuration>)
        ensures
            v@ == duration_parts(self),
    {
        self.parts.into_vec()
    }
}

impl TextParts {
    /// `SmallVec::into_vec`: the pairs in a `Vec`.
    #[verifier::external_body]
    pub fn into_vec(self) -> (v: Vec<(u32, String)>)
        ensures
            v@.len() == text_parts(self).len(),
            forall|i: int| 0 <= i < v@.len() ==> (#[trigger] v@[i]).0 == text_parts(self)[i].0
                && v@[i].1@ == text_parts(self)[i].1,
    {
        self.parts.into_vec()
    }

    /// `SmallVec::is_empty`: whether no pair is held.
    #[verifier::external_body]
    pub fn is_empty(&self) -> (b: bool)
        ensures
            b == (text_parts(*self).len() == 0),
    {
        self.parts.is_empty()
    }
}

/// Minutes in a year, a month of thirty days, a day and an hour.
pub open spec fn minutes_in_year() -> nat { 525600 }
pub open spec fn minutes_in_month() -> nat { 43200 }
pub open spec fn minutes_in_day() -> nat { 1440 }
pub open spec fn minutes_in_hour() -> nat { 60 }

/// The one-element sequence of a duration when its value is not zero.
pub open spec fn part_if_nonzero(value: nat, kind: TimeKind) -> Seq<NaiveDuration> {
    if value > 0 {
        seq![NaiveDuration { time_value: value as u32, time_kind: kind }]
    } else {
        Seq::empty()
    }
}

/// The remainder parts of `m` minutes, each present only when not zero:
/// whole years of 365 days; whole months of 30 days, counted modulo 12;
/// the days past whole months; then the hours and minutes of the last day.
pub open spec fn split_minutes(m: nat) -> Seq<NaiveDuration> {
    part_if_nonzero(kind_value(m, TimeKind::Year), TimeKind::Year)
        + part_if_nonzero(kind_value(m, TimeKind::Month), TimeKind::Month)
        + part_if_nonzero(kind_value(m, TimeKind::Day), TimeKind::Day)
        + part_if_nonzero(kind_value(m, TimeKind::Hour), TimeKind::Hour)
        + part_if_nonzero(kind_value(m, TimeKind::Minute), TimeKind::Minute)
}

/// The value of the part of unit `kind` in `m` minutes.
pub open spec fn kind_value(m: nat, kind: TimeKind) -> nat {
    match kind {
        TimeKind::Year => m / minutes_in_year(),
        TimeKind::Month => (m / minutes_in_month()) % 12,
        TimeKind::Day => (m / minutes_in_day()) % 30,
        TimeKind::Hour => (m / minutes_in_hour()) % 24,
        TimeKind::Minute => m % 60,
    }
}

impl TimeKind {
    /// The position of the unit, from the largest unit to the smallest.
    pub open spec fn rank(self) -> nat {
        match self {
            TimeKind::Year => 0,
            TimeKind::Month => 1,
            TimeKind::Day => 2,
            TimeKind::Hour => 3,
            TimeKind::Minute => 4,
        }
    }
}

/// The parts of a time are never zero and come from the largest unit to
/// the smallest, each unit at most once; each holds the value of its unit:
/// the whole years, then months below 12, days below 30, hours below 24
/// and minutes below 60.
pub proof fn lemma_parts_nonzero_in_order(minutes: u32)
    ensures
        forall|i: int|
            0 <= i < split_minutes(minutes as nat).len() ==> #[trigger] split_minutes(minutes as nat)[i].time_value
                == kind_value(minutes as nat, split_minutes(minutes as nat)[i].time_kind),
        kind_value(minutes as nat, TimeKind::Year) == minutes / 525600,
        kind_value(minutes as nat, TimeKind::Month) < 12,
        kind_value(minutes as nat, TimeKind::Day) < 30,
        kind_value(minutes as nat, TimeKind::Hour) < 24,
        kind_value(minutes as nat, TimeKind::Minute) < 60,
        forall|i: int|
            0 <= i < split_minutes(minutes as nat).len() ==> #[trigger] split_minutes(minutes as nat)[i].time_value > 0,
        forall|i: int, j: int|
            0 <= i < j < split_minutes(minutes as nat).len() ==> (#[trigger] split_minutes(
                minutes as nat,
            )[i]).time_kind.rank() < (#[trigger] split_minutes(minutes as nat)[j]).time_kind.rank(),
{
    let m = minutes as nat;
    assert(m / minutes_in_year() <= m);
    assert((m / minutes_in_month()) % 12 < 12);
    let y = part_if_nonzero(kind_value(m, TimeKind::Year), TimeKind::Year);
    let mo = part_if_nonzero(kind_value(m, TimeKind::Month), TimeKind::Month);
    let d = part_if_nonzero(kind_value(m, TimeKind::Day), TimeKind::Day);
    let h = part_if_nonzero(kind_value(m, TimeKind::Hour), TimeKind::Hour);
    let mi = part_if_nonzero(kind_value(m, TimeKind::Minute), TimeKind::Minute);
    let s1 = y + mo;
    let s2 = s1 + d;
    let s3 = s2 + h;
    let s4 = s3 + mi;
    assert(split_minutes(m) == s4);
    assert forall|i: int| 0 <= i < s1.len() implies s1[i].time_value > 0 && s1[i].time_value == kind_value(m, s1[i].time_kind) && s1[i].time_kind.rank() <= 1 by {
        if i < y.len() {
            assert(s1[i] == y[i]);
        } else {
            assert(s1[i] == mo[i - y.len()]);
        }
    }
    assert forall|i: int, j: int| 0 <= i < j < s1.len() implies s1[i].time_kind.rank() < s1[j].time_kind.rank() by {
        assert(s1[i] == y[i]);
        assert(s1[j] == mo[j - y.len()]);
    }
    assert forall|i: int| 0 <= i < s2.len() implies s2[i].time_value > 0 && s2[i].time_value == kind_value(m, s2[i].time_kind) && s2[i].time_kind.rank() <= 2 by {
        if i < s1.len() {
            assert(s2[i] == s1[i]);
        } else {
            assert(s2[i] == d[i - s1.len()]);
        }
    }
    assert forall|i: int, j: int| 0 <= i < j < s2.len() implies s2[i].time_kind.rank() < s2[j].time_kind.rank() by {
        assert(s2[i] == s1[i]);
        if j < s1.len() {
            assert(s2[j] == s1[j]);
        } else {
            assert(s2[j] == d[j - s1.len()]);
        }
    }
    assert forall|i: int| 0 <= i < s3.len() implies s3[i].time_value > 0 && s3[i].time_value == kind_value(m, s3[i].time_kind) && s3[i].time_kind.rank() <= 3 by {
        if i < s2.len() {
            assert(s3[i] == s2[i]);
        } else {
            assert(s3[i] == h[i - s2.len()]);
        }
    }
    assert forall|i: int, j: int| 0 <= i < j < s3.len() implies s3[i].time_kind.rank() < s3[j].time_kind.rank() by {
        assert(s3[i] == s2[i]);
        if j < s2.len() {
            assert(s3[j] == s2[j]);
        } else {
            assert(s3[j] == h[j - s2.len()]);
        }
    }
    assert forall|i: int| 0 <= i < s4.len() implies s4[i].time_value > 0 && s4[i].time_value == kind_value(m, s4[i].time_kind) by {
        if i < s3.len() {
            assert(s4[i] == s3[i]);
        } else {
            assert(s4[i] == mi[i - s3.len()]);
        }
    }
    assert forall|i: int, j: int| 0 <= i < j < s4.len() implies s4[i].time_kind.rank() < s4[j].time_kind.rank() by {
        assert(s4[i] == s3[i]);
        if j < s3.len() {
            assert(s4[j] == s3[j]);
        } else {
            assert(s4[j] == mi[j - s3.len()]);
        }
    }
}

/// The pluralised text of each duration.
pub open spec fn plurized_parts(parts: Seq<NaiveDuration>) -> Seq<(u32, Seq<char>)> {
    parts.map_values(
        |d: NaiveDuration| (d.time_value, plural_text(d.time_value as nat, d.time_kind.name())),
    )
}

/// The text of a sequence of durations: each as `value unit ` in turn.
pub open spec fn parts_text(parts: Seq<(u32, Seq<char>)>) -> Seq<char>
    decreases parts.len(),
{
    if parts.len() == 0 {
        Seq::empty()
    } else {
        parts_text(parts.drop_last()) + decimal(parts.last().0 as nat) + seq![' ']
            + parts.last().1 + seq![' ']
    }
}

/// `Time` split into its remainder parts in the order of years, months, days,
/// hours, minutes.
///
/// The components with a value of 0 are left out, the order is kept. This
/// makes time with fractional parts easy to read: in place of 2.5 days, 2
/// Days 12 Hours.
pub struct NaiveTime {
    /// The durations, in the order of years, months, days, hours, minutes.
    pub time_parts: DurationParts,
}

impl NaiveTime {
    /// The durations that make up this time.
    pub open spec fn parts(&self) -> Seq<NaiveDuration> {
        duration_parts(self.time_parts)
    }

    pub fn new(time_in_minutes: u32) -> (t: Self)
        ensures
            t.parts() == split_minutes(time_in_minutes as nat),
    {
        let mut time_parts = new_duration_parts();

        let years = time_in_minutes / (60 * 24 * 365);
        let months = (time_in_minutes / (60 * 24 * 30)) % 12;
        let days = (time_in_minutes / (60 * 24)) % 30;
        let hours = (time_in_minutes / 60) % 24;
        let minutes = time_in_minutes % 60;

        if years > 0 {
            push_duration_part(&mut time_parts, NaiveDuration::new(years, TimeKind::Year));
        }
        if months > 0 {
            push_duration_part(&mut time_parts, NaiveDuration::new(months, TimeKind::Month));
        }
        if days > 0 {
            push_duration_part(&mut time_parts, NaiveDuration::new(days, TimeKind::Day));
        }
        if hours > 0 {
            push_duration_part(&mut time_parts, NaiveDuration::new(hours, TimeKind::Hour));
        }
        if minutes > 0 {
            push_duration_part(&mut time_parts, NaiveDuration::new(minutes, TimeKind::Minute));
        }
        proof {
            assert(duration_parts(time_parts) =~= split_minutes(time_in_minutes as nat));
        }
        Self { time_parts }
    }

    /// Each part as its value and pluralised unit name.
    pub fn as_parts(&self) -> (r: TextParts)
        ensures
            text_parts(r) == plurized_parts(self.parts()),
    {
        let mut result = new_text_parts();
        let n = duration_parts_len(&self.time_parts);
        let mut i: usize = 0;
        while i < n
            invariant
                i <= n,
                n == self.parts().len(),
                text_parts(result) =~= plurized_parts(self.parts().take(i as int)),
            decreases n - i,
        {
            let part = duration_part_at(&self.time_parts, i);
            push_text_part(&mut result, part.plurized());
            proof {
                assert(self.parts().take(i + 1) =~= self.parts().take(i as int).push(self.parts()[i as int]));
            }
            i = i + 1;
        }
        proof {
            assert(self.parts().take(n as int) =~= self.parts());
        }
        result
    }

    /// The first (largest) part with its pluralised unit name.
    pub fn largest_part(&self) -> (r: Option<(u32, String)>)
        ensures
            self.parts().len() == 0 ==> r is None,
            self.parts().len() > 0 ==> (r matches Some(p) && p.0 == self.parts()[0].time_value
                && p.1@ == plural_text(self.parts()[0].time_value as nat, self.parts()[0].time_kind.name())),
    {
        if duration_parts_len(&self.time_parts) == 0 {
            None
        } else {
            Some(duration_part_at(&self.time_parts, 0).plurized())
        }
    }

    /// The length, in seconds, of one unit of the largest part.
    pub fn get_longest_unit_duration(&self) -> (r: Option<i64>)
        ensures
            self.parts().len() == 0 ==> r is None,
            self.parts().len() > 0 ==> r == Some(unit_seconds(self.parts()[0].time_kind)),
    {
        if duration_parts_len(&self.time_parts) == 0 {
            None
        } else {
            Some(Self::to_chrono_duration_unit(&duration_part_at(&self.time_parts, 0).time_kind))
        }
    }

    /// The length, in seconds, of one unit of `time_kind`: a month counts as
    /// four weeks and a year as fifty-two weeks.
    pub fn to_chrono_duration_unit(time_kind: &TimeKind) -> (s: i64)
        ensures
            s == unit_seconds(*time_kind),
    {
        match time_kind {
            TimeKind::Minute => duration_minutes_in_seconds(1),
            TimeKind::Hour => duration_hours_in_seconds(1),
            TimeKind::Day => duration_days_in_seconds(1),
            TimeKind::Month => duration_weeks_in_seconds(4),
            TimeKind::Year => duration_weeks_in_seconds(52),
        }
    }

    /// The text of the time: each part as `value unit ` in turn.
    pub fn to_string(&self) -> (s: String)
        ensures
            s@ == parts_text(plurized_parts(self.parts())),
    {
        let mut s = String::new();
        let n = duration_parts_len(&self.time_parts);
        let mut i: usize = 0;
        while i < n
            invariant
                i <= n,
                n == self.parts().len(),
                s@ == parts_text(plurized_parts(self.parts()).take(i as int)),
            decreases n - i,
        {
            let (time_value, time_text) = duration_part_at(&self.time_parts, i).plurized();
            proof {
                reveal_strlit(" ");
                let pp = plurized_parts(self.parts());
                assert(pp.take(i + 1).drop_last() =~= pp.take(i as int));
            }
            push_decimal(&mut s, time_value);
            s.append(" ");
            s.append(time_text.as_str());
            s.append(" ");
            i = i + 1;
        }
        proof {
            assert(plurized_parts(self.parts()).take(n as int) =~= plurized_parts(self.parts()));
        }
        s
    }
}

/// The text of a time of `minutes` minutes.
pub open spec fn time_text(minutes: nat) -> Seq<char> {
    parts_text(plurized_parts(split_minutes(minutes)))
}

/// The text of a time of `minutes` minutes (see [`NaiveTime::to_string`]).
pub fn minutes_text(minutes: u32) -> (s: String)
    ensures
        s@ == time_text(minutes as nat),
{
    NaiveTime::new(minutes).to_string()
}

/// Seconds in one unit of each kind of time.
pub open spec fn unit_seconds(kind: TimeKind) -> i64 {
    match kind {
        TimeKind::Minute => 60,
        TimeKind::Hour => 3600,
        TimeKind::Day => 86400,
        TimeKind::Month => 2419200,
        TimeKind::Year => 31449600,
    }
}

/// `chrono::Duration::minutes(n).num_seconds()`: `n` minutes in seconds.
#[verifier::external_body]
fn duration_minutes_in_seconds(minutes: i64) -> (s: i64)
    requires
        0 <= minutes <= 1_000_000,
    ensures
        s == minutes * 60,
{
    chrono::Duration::minutes(minutes).num_seconds()
}

/// `chrono::Duration::hours(n).num_seconds()`: `n` hours in seconds.
#[verifier::external_body]
fn duration_hours_in_seconds(hours: i64) -> (s: i64)
    requires
        0 <= hours <= 1_000_000,
    ensures
        s == hours * 3600,
{
    chrono::Duration::hours(hours).num_seconds()
}

/// `chrono::Duration::days(n).num_seconds()`: `n` days in seconds.
#[verifier::external_body]
fn duration_days_in_seconds(days: i64) -> (s: i64)
    requires
        0 <= days <= 1_000_000,
    ensures
        s == days * 86400,
{
    chrono::Duration::days(days).num_seconds()
}

/// `chrono::Duration::weeks(n).num_seconds()`: `n` weeks in seconds.
#[verifier::external_body]
fn duration_weeks_in_seconds(weeks: i64) -> (s: i64)
    requires
        0 <= weeks <= 1_000_000,
    ensures
        s == weeks * 604800,
{
    chrono::Duration::weeks(weeks).num_seconds()
}

} // verus!
