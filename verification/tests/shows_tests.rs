use series_troxide::episodes::{sort_by_release_time, Episode, EpisodeList};
use series_troxide::my_shows_view::{
    filter_posters, get_series_release_time, needs_reload, select_indices, upcoming_posters, Action, LoadState, Message, MyShowsFilter,
    MyShowsTab, UpcomingRelease,
};
use series_troxide::name_order::{name_le, sort_by_name};
use series_troxide::series_information::SeriesMainInformation;
use series_troxide::watchlist_tab::{
    get_series_information_and_watched_episodes, has_pending_episodes, Message as WatchlistMessage, WatchlistEntry, WatchlistSummary, WatchlistTab, WatchlistView,
};

fn series(id: u32, name: &str, status: &str) -> SeriesMainInformation {
    SeriesMainInformation {
        id,
        name: name.to_string(),
        status: status.to_string(),
        genres: vec![],
        average_runtime: None,
        language: None,
        premiered: None,
        ended: None,
        summary: None,
        network: None,
        web_channel: None,
        kind: None,
        image: None,
    }
}

fn episode(season: u32, number: u32, airstamp: &str) -> Episode {
    Episode {
        name: format!("Episode {}", number),
        season,
        number: Some(number),
        airstamp: Some(airstamp.to_string()),
        runtime: Some(30),
        summary: None,
    }
}

#[test]
fn posters_are_sorted_into_parts() {
    let shows = vec![
        series(1, "Running tracked", "Running"),
        series(2, "Ended tracked", "Ended"),
        series(3, "Untracked", "Running"),
        series(4, "Upcoming tracked", "Running"),
    ];
    let followed = vec![true, true, false, true];
    let upcoming = vec![4];
    assert_eq!(filter_posters(&shows, &followed, &upcoming, MyShowsFilter::WaitingRelease), vec![0]);
    assert_eq!(filter_posters(&shows, &followed, &upcoming, MyShowsFilter::Ended), vec![1]);
    assert_eq!(filter_posters(&shows, &followed, &upcoming, MyShowsFilter::Untracked), vec![2]);
    assert_eq!(select_indices(&[false, true, true]), vec![1, 2]);
}

#[test]
fn reload_only_when_series_changed() {
    assert!(!needs_reload(false, &[1, 2], &[2, 1]));
    assert!(needs_reload(false, &[1, 2], &[1, 3]));
    assert!(needs_reload(true, &[1], &[1]));
    assert!(!needs_reload(true, &[], &[]));
    assert!(needs_reload(false, &[1, 2], &[1]));
}

#[test]
fn my_shows_page_loads_and_sorts_releases() {
    let mut tab = MyShowsTab::new();
    assert_eq!(tab.load_state, LoadState::Loading);
    match tab.refresh(vec![3, 4]) {
        Action::LoadSeriesInformations(ids) => assert_eq!(ids, vec![3, 4]),
        other => panic!("unexpected action {:?}", other),
    }
    match tab.update(Message::SeriesInformationsReceived(vec![series(3, "C", "Running"), series(4, "D", "Running")])) {
        Action::LoadUpcomingReleases(ids) => assert_eq!(ids, vec![3, 4]),
        other => panic!("unexpected action {:?}", other),
    }
    assert_eq!(tab.load_state, LoadState::Loaded);
    assert!(matches!(tab.refresh(vec![4, 3]), Action::Nothing));
    tab.update(Message::UpcomingReleaseSeriesReceived(vec![
        UpcomingRelease { series: series(3, "C", "Running"), release_time: 500 },
        UpcomingRelease { series: series(4, "D", "Running"), release_time: 100 },
    ]));
    let order: Vec<u32> = tab.upcoming_releases.iter().map(|r| r.series.id).collect();
    assert_eq!(order, vec![4, 3]);
}

#[test]
fn release_sort_is_stable() {
    let sorted = sort_by_release_time(vec![
        UpcomingRelease { series: series(1, "A", "Running"), release_time: 5 },
        UpcomingRelease { series: series(2, "B", "Running"), release_time: 1 },
        UpcomingRelease { series: series(3, "C", "Running"), release_time: 5 },
    ]);
    let order: Vec<u32> = sorted.iter().map(|r| r.series.id).collect();
    assert_eq!(order, vec![2, 1, 3]);
}

#[test]
fn names_in_alphabetical_order() {
    assert!(name_le("Alpha", "Beta"));
    assert!(name_le("Alp", "Alpha"));
    assert!(!name_le("Beta", "Alpha"));
    assert!(name_le("Same", "Same"));
    assert!(name_le("Zebra", "apple"));
}

fn entry(id: u32, name: &str, total: usize) -> WatchlistEntry {
    WatchlistEntry { series: series(id, name, "Running"), episode_list: EpisodeList { episodes: vec![] }, total_episodes: total }
}

#[test]
fn watchlist_is_alphabetical_with_a_summary() {
    let sorted = sort_by_name(vec![entry(1, "Severance", 9), entry(2, "Andor", 12), entry(3, "Dark", 26)]);
    let names: Vec<&str> = sorted.iter().map(|e| e.series.name.as_str()).collect();
    assert_eq!(names, vec!["Andor", "Dark", "Severance"]);

    let mut tab = WatchlistTab::new();
    assert!(matches!(tab.view_state(), WatchlistView::Loading));
    tab.update(WatchlistMessage::SeriesInformationLoaded(vec![entry(1, "Severance", 9), entry(2, "Andor", 12)]));
    let summary = tab.watchlist_summary.as_ref().unwrap();
    assert_eq!(summary.total_episodes, 21);
    assert_eq!(summary.series_ids, vec![(1, 9, 0), (2, 12, 0)]);
    assert_eq!(tab.watchlist_posters[0].series.name, "Andor");
    assert_eq!(tab.watchlist_posters[0].index, 0);
    match tab.view_state() {
        WatchlistView::Posters(shown) => assert_eq!(shown, vec![0, 1]),
        other => panic!("unexpected view {:?}", other),
    }
    tab.update(WatchlistMessage::ToggleEpisodeInfo(1));
    assert!(tab.watchlist_posters[1].show_episode_info);
    assert_eq!(tab.watchlist_posters[1].episode_info_button_text(), "Hide Episode Info");
}

#[test]
fn empty_watchlist_is_all_clear() {
    let mut tab = WatchlistTab::new();
    tab.update(WatchlistMessage::SeriesInformationLoaded(vec![]));
    assert!(matches!(tab.view_state(), WatchlistView::AllClear));
}

#[test]
fn watchlist_summary_figures() {
    let summary = WatchlistSummary::new(20, vec![(1, 10, 30), (2, 10, 60)]);
    let figures = summary.figures(&[4, 8]);
    assert_eq!(figures.series_to_watch, 2);
    assert_eq!(figures.episodes_watched, 12);
    assert_eq!(figures.episodes_to_watch, 8);
    // (10 - 4) * 30 + (10 - 8) * 60 = 300 minutes
    assert_eq!(figures.time_to_watch, "5 Hours ");
}

#[test]
fn pending_episodes() {
    let list = EpisodeList {
        episodes: vec![
            episode(1, 1, "2020-01-01T00:00:00+00:00"),
            episode(1, 2, "2020-01-08T00:00:00+00:00"),
            episode(1, 3, "2999-01-01T00:00:00+00:00"),
        ],
    };
    let now = 1_700_000_000;
    assert!(has_pending_episodes(1, &list, now));
    assert!(!has_pending_episodes(2, &list, now));
}

#[test]
fn poster_texts() {
    let mut e = entry(1, "Show", 10);
    e.series.average_runtime = Some(30);
    let mut tab = WatchlistTab::new();
    tab.update(WatchlistMessage::SeriesInformationLoaded(vec![e]));
    let poster = &tab.watchlist_posters[0];
    assert_eq!(poster.episodes_left_text(4), "6 episodes left");
    assert_eq!(poster.time_left_text(4), Some("3 Hours ".to_string()));
}

#[test]
fn releases_of_running_series_with_a_next_episode() {
    // 2024-01-01T00:00:00Z
    let now = 1_704_067_200;
    let shows = vec![
        series(1, "Running with next", "Running"),
        series(2, "Ended with next", "Ended"),
        series(3, "Running, all aired", "Running"),
        series(4, "To be determined with next", "To Be Determined"),
    ];
    let lists = vec![
        EpisodeList {
            episodes: vec![
                episode(1, 1, "2023-12-01T00:00:00+00:00"),
                episode(1, 2, "2024-01-02T00:00:00+00:00"),
                episode(1, 3, "2024-01-09T00:00:00+00:00"),
            ],
        },
        EpisodeList { episodes: vec![episode(1, 1, "2024-02-01T00:00:00+00:00")] },
        EpisodeList { episodes: vec![episode(1, 1, "2023-02-01T00:00:00+00:00")] },
        EpisodeList { episodes: vec![episode(2, 1, "2024-01-01T00:01:00+00:00")] },
    ];
    let releases = get_series_release_time(shows, &lists, now);
    let summary: Vec<(u32, i64)> = releases.iter().map(|r| (r.series.id, r.release_time)).collect();
    assert_eq!(summary, vec![(1, now + 86_400), (4, now + 60)]);
}

#[test]
fn watchlist_keeps_series_with_episodes_left() {
    // 2024-01-01T00:00:00Z
    let now = 1_704_067_200;
    let shows = vec![series(1, "Behind", "Running"), series(2, "Caught up", "Running"), series(3, "Not started", "Ended")];
    let two_aired = || EpisodeList {
        episodes: vec![
            episode(1, 1, "2023-12-01T00:00:00+00:00"),
            episode(1, 2, "2023-12-08T00:00:00+00:00"),
            episode(1, 3, "2024-02-08T00:00:00+00:00"),
        ],
    };
    let lists = vec![two_aired(), two_aired(), two_aired()];
    let entries = get_series_information_and_watched_episodes(shows, lists, &[1, 2, 0], now);
    let summary: Vec<(u32, usize)> = entries.iter().map(|e| (e.series.id, e.total_episodes)).collect();
    assert_eq!(summary, vec![(1, 2), (3, 2)]);
}

#[test]
fn series_of_the_same_name_keep_their_order() {
    let sorted = sort_by_name(vec![entry(1, "Dark", 1), entry(2, "Andor", 2), entry(3, "Dark", 3), entry(4, "Dark", 4)]);
    let ids: Vec<u32> = sorted.iter().map(|e| e.series.id).collect();
    assert_eq!(ids, vec![2, 1, 3, 4]);
}

#[test]
fn every_series_is_in_exactly_one_part() {
    let shows = vec![
        series(1, "Running tracked", "Running"),
        series(2, "Ended tracked", "Ended"),
        series(3, "Untracked", "Running"),
        series(4, "Upcoming tracked", "Running"),
        series(5, "Ended upcoming", "Ended"),
        series(6, "Untracked upcoming", "Running"),
    ];
    let followed = vec![true, true, false, true, true, false];
    let upcoming = vec![4, 5, 6];
    let coming = upcoming_posters(&shows, &followed, &upcoming);
    assert_eq!(coming, vec![3]);
    let parts = [
        coming,
        filter_posters(&shows, &followed, &upcoming, MyShowsFilter::WaitingRelease),
        filter_posters(&shows, &followed, &upcoming, MyShowsFilter::Ended),
        filter_posters(&shows, &followed, &upcoming, MyShowsFilter::Untracked),
    ];
    for i in 0..shows.len() {
        assert_eq!(parts.iter().filter(|p| p.contains(&i)).count(), 1);
    }
}
