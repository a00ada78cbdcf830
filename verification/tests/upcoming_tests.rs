use series_troxide::episodes::Episode;
use series_troxide::series_information::SeriesMainInformation;
use series_troxide::upcoming_releases::{
    next_episode_to_air_widget, release_countdown, remaining_release_minutes, upcoming_episode_heading, Action,
    LoadState, Message,
    UpcomingPoster, UpcomingReleases, UpcomingView,
};

fn upcoming(id: u32, name: &str, release_time: i64) -> UpcomingPoster {
    UpcomingPoster {
        series: SeriesMainInformation {
            id,
            name: name.to_string(),
            status: "Running".to_string(),
            genres: vec![],
            average_runtime: None,
            language: None,
            premiered: None,
            ended: None,
            summary: None,
            network: None,
            web_channel: None,
            kind: None,
            image: None,
        },
        episode: Episode {
            name: "Pilot".to_string(),
            season: 1,
            number: Some(1),
            airstamp: None,
            runtime: None,
            summary: None,
        },
        release_time,
    }
}

#[test]
fn minutes_left_round_toward_zero() {
    assert_eq!(remaining_release_minutes(1000 + 119, 1000), 1);
    assert_eq!(remaining_release_minutes(1000, 1000 + 119), -1);
    assert_eq!(remaining_release_minutes(1000, 1000), 0);
}

#[test]
fn countdown_shows_the_largest_unit() {
    assert_eq!(release_countdown(3 * 3600 + 60, 0), Some((3, "Hours".to_string())));
    assert_eq!(release_countdown(30, 0), None);
}

#[test]
fn releases_refresh_by_the_largest_unit_left() {
    let (mut widget, action) = UpcomingReleases::new();
    assert!(matches!(action, Action::LoadUpcomingReleases));
    assert!(matches!(widget.view_state(), UpcomingView::Loading));
    assert_eq!(widget.subscription(0), None);
    widget.update(Message::SeriesInformationReceived(Some(vec![
        upcoming(1, "Later", 2 * 86400 + 10),
        upcoming(2, "Sooner", 3 * 3600),
    ])));
    assert_eq!(widget.load_state, LoadState::Loaded);
    assert_eq!(widget.upcoming_posters[0].series.id, 2);
    assert_eq!(widget.subscription(0), Some(3600));
    assert_eq!(widget.subscription(3 * 3600 - 30), Some(60));
    assert!(matches!(widget.update(Message::UpcomingPosterPressed(1)), Action::OpenSeries(1)));
    assert!(matches!(widget.update(Message::Refresh), Action::LoadUpcomingReleases));
    widget.update_matches("later");
    match widget.view_state() {
        UpcomingView::Posters(shown) => assert_eq!(shown, vec![1]),
        other => panic!("unexpected view {:?}", other),
    }
    assert_eq!(upcoming_episode_heading(&widget.upcoming_posters[0]), "S01E01: Pilot");
}

#[test]
fn no_upcoming_releases() {
    let (mut widget, _) = UpcomingReleases::new();
    widget.update(Message::SeriesInformationReceived(Some(vec![])));
    assert!(matches!(widget.view_state(), UpcomingView::Empty));
}

#[test]
fn upcoming_poster_getters() {
    let poster = upcoming(12, "Severance", 1_700_000_000);
    assert_eq!(poster.get_series_info().id, 12);
    assert_eq!(poster.get_series_info().name, "Severance");
    assert_eq!(poster.get_episode_release_time(), 1_700_000_000);
}

#[test]
fn next_episode_line_tells_the_time_left() {
    // 2024-01-01T00:00:00Z
    let now = 1_704_067_200;
    let episode = Episode {
        name: "Third".to_string(),
        season: 1,
        number: Some(3),
        airstamp: Some("2024-01-02T02:00:30+00:00".to_string()),
        runtime: None,
        summary: None,
    };
    assert_eq!(next_episode_to_air_widget(Some(&episode), now), Some("S01E03 in 1 Day 2 Hours ".to_string()));
    let unknown = Episode { airstamp: None, ..episode };
    assert_eq!(next_episode_to_air_widget(Some(&unknown), now), None);
    assert_eq!(next_episode_to_air_widget(None, now), None);
}
