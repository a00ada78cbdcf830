use series_troxide::helpers::time::{minutes_text, plurize_time, NaiveDuration, NaiveTime, TimeKind};

#[test]
fn minute_test() {
    let time_parts = NaiveTime::new(1).time_parts.into_vec();
    assert_eq!(time_parts, vec![NaiveDuration::new(1, TimeKind::Minute)])
}

#[test]
fn hour_test() {
    let time_parts = NaiveTime::new(60).time_parts.into_vec();
    assert_eq!(time_parts, vec![NaiveDuration::new(1, TimeKind::Hour)])
}

#[test]
fn day_test() {
    let time_parts = NaiveTime::new(60 * 24).time_parts.into_vec();
    assert_eq!(time_parts, vec![NaiveDuration::new(1, TimeKind::Day)])
}

#[test]
fn month_test() {
    let time_parts = NaiveTime::new(60 * 24 * 30).time_parts.into_vec();
    assert_eq!(time_parts, vec![NaiveDuration::new(1, TimeKind::Month)])
}

#[test]
fn year_test() {
    let time_parts = NaiveTime::new(365 * 24 * 60).time_parts.into_vec();
    assert_eq!(
        time_parts,
        vec![
            NaiveDuration::new(1, TimeKind::Year),
            NaiveDuration::new(5, TimeKind::Day)
        ]
    )
}

#[test]
fn fractional_day_test() {
    let time_parts = NaiveTime::new((24 * 60) + (12 * 60)).time_parts.into_vec();
    assert_eq!(
        time_parts,
        vec![
            NaiveDuration::new(1, TimeKind::Day,),
            NaiveDuration::new(12, TimeKind::Hour)
        ]
    )
}

#[test]
fn zero_minutes_have_no_parts() {
    assert!(NaiveTime::new(0).time_parts.into_vec().is_empty());
    assert!(NaiveTime::new(0).as_parts().is_empty());
    assert_eq!(NaiveTime::new(0).to_string(), "");
    assert_eq!(NaiveTime::new(0).largest_part(), None);
    assert_eq!(NaiveTime::new(0).get_longest_unit_duration(), None);
}

#[test]
fn all_units_are_split() {
    // 396 days, one hour and one minute: the days are counted modulo the
    // thirty days of a month, across the year
    let minutes = 525600 + 43200 + 1440 + 60 + 1;
    let time_parts = NaiveTime::new(minutes).time_parts.into_vec();
    assert_eq!(
        time_parts,
        vec![
            NaiveDuration::new(1, TimeKind::Year),
            NaiveDuration::new(1, TimeKind::Month),
            NaiveDuration::new(6, TimeKind::Day),
            NaiveDuration::new(1, TimeKind::Hour),
            NaiveDuration::new(1, TimeKind::Minute),
        ]
    );
}

#[test]
fn time_text_pluralises_units() {
    assert_eq!(NaiveTime::new(150).to_string(), "2 Hours 30 Minutes ");
    assert_eq!(NaiveTime::new(61).to_string(), "1 Hour 1 Minute ");
    assert_eq!(minutes_text(2 * 1440), "2 Days ");
}

#[test]
fn parts_are_pluralised() {
    let parts = NaiveTime::new(2 * 1440 + 1).as_parts().into_vec();
    assert_eq!(parts, vec![(2, "Days".to_string()), (1, "Minute".to_string())]);
}

#[test]
fn largest_part_and_its_unit() {
    assert_eq!(NaiveTime::new(3 * 60 + 5).largest_part(), Some((3, "Hours".to_string())));
    assert_eq!(NaiveTime::new(3 * 60 + 5).get_longest_unit_duration(), Some(3600));
    assert_eq!(NaiveTime::new(5).get_longest_unit_duration(), Some(60));
    assert_eq!(NaiveTime::new(2 * 1440).get_longest_unit_duration(), Some(86400));
    assert_eq!(NaiveTime::new(43200).get_longest_unit_duration(), Some(4 * 604800));
    assert_eq!(NaiveTime::new(525600).get_longest_unit_duration(), Some(52 * 604800));
}

#[test]
fn unit_durations_in_seconds() {
    assert_eq!(NaiveTime::to_chrono_duration_unit(&TimeKind::Minute), 60);
    assert_eq!(NaiveTime::to_chrono_duration_unit(&TimeKind::Hour), 3600);
    assert_eq!(NaiveTime::to_chrono_duration_unit(&TimeKind::Day), 86400);
    assert_eq!(NaiveTime::to_chrono_duration_unit(&TimeKind::Month), 2419200);
    assert_eq!(NaiveTime::to_chrono_duration_unit(&TimeKind::Year), 31449600);
}

#[test]
fn plurize_time_adds_s_above_one() {
    assert_eq!(plurize_time(1, "Day"), (1, "Day".to_string()));
    assert_eq!(plurize_time(0, "Day"), (0, "Day".to_string()));
    assert_eq!(plurize_time(3, "Week"), (3, "Weeks".to_string()));
    assert_eq!(NaiveDuration::new(2, TimeKind::Month).plurized(), (2, "Months".to_string()));
    assert_eq!(TimeKind::Year.to_string(), "Year");
}

#[test]
fn parts_are_nonzero_and_largest_first() {
    let rank = |k: &TimeKind| match k {
        TimeKind::Year => 0,
        TimeKind::Month => 1,
        TimeKind::Day => 2,
        TimeKind::Hour => 3,
        TimeKind::Minute => 4,
    };
    for minutes in [0u32, 1, 59, 61, 1441, 44_641, 525_601, 1_000_000, u32::MAX] {
        let parts = NaiveTime::new(minutes).time_parts.into_vec();
        assert!(parts.iter().all(|p| p.time_value > 0));
        assert!(parts.windows(2).all(|w| rank(&w[0].time_kind) < rank(&w[1].time_kind)));
    }
    assert_eq!(
        NaiveTime::new(525_600 + 43_200 + 1_440 + 60 + 1).time_parts.into_vec(),
        vec![
            NaiveDuration::new(1, TimeKind::Year),
            NaiveDuration::new(1, TimeKind::Month),
            NaiveDuration::new(6, TimeKind::Day),
            NaiveDuration::new(1, TimeKind::Hour),
            NaiveDuration::new(1, TimeKind::Minute),
        ]
    );
}

#[test]
fn months_wrap_at_twelve() {
    assert!(NaiveTime::new(360 * 24 * 60).time_parts.into_vec().is_empty());
    assert_eq!(NaiveTime::new(361 * 24 * 60).time_parts.into_vec(), vec![NaiveDuration::new(1, TimeKind::Day)]);
    assert_eq!(
        NaiveTime::new(390 * 24 * 60).time_parts.into_vec(),
        vec![NaiveDuration::new(1, TimeKind::Year), NaiveDuration::new(1, TimeKind::Month)]
    );
    assert!(NaiveTime::new(0).time_parts.into_vec().is_empty());
    for minutes in [1u32, 59, 60, 1439, 1440, 43_199, 525_599, 525_600, 1_000_000, u32::MAX] {
        assert!(!NaiveTime::new(minutes).time_parts.into_vec().is_empty());
    }
}
