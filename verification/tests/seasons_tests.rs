use series_troxide::upcoming_releases::next_episode_line_of;
use series_troxide::episodes::{Episode, EpisodeList};
use series_troxide::season_widget::{
    Action, AddResult, EpisodesView, Message, Season, Seasons, SeasonsMessage, SeasonsView,
};
use series_troxide::series_view::{
    Action as ViewAction, EpisodeInfo, EpisodeMessage, Message as ViewMessage, Season as ViewSeason, SeasonInfo,
    Episode as ViewEpisode,
};

fn episode(season: u32, number: u32, airstamp: Option<&str>) -> Episode {
    Episode {
        name: format!("Episode {}", number),
        season,
        number: Some(number),
        airstamp: airstamp.map(|a| a.to_string()),
        runtime: Some(30),
        summary: None,
    }
}

fn list() -> EpisodeList {
    EpisodeList {
        episodes: vec![
            episode(1, 1, Some("2020-01-01T00:00:00+00:00")),
            episode(1, 2, Some("2020-01-08T00:00:00+00:00")),
            episode(2, 1, Some("2030-01-01T00:00:00+00:00")),
            episode(2, 2, None),
            episode(1, 3, Some("not a date")),
        ],
    }
}

const NOW: i64 = 1_700_000_000;

#[test]
fn release_times_are_parsed_from_rfc3339() {
    assert_eq!(episode(1, 1, Some("1970-01-01T00:01:00+00:00")).release_time(), Some(60));
    assert_eq!(episode(1, 1, Some("1970-01-01T01:00:00+01:00")).release_time(), Some(0));
    assert_eq!(episode(1, 1, Some("yesterday")).release_time(), None);
    assert_eq!(episode(1, 1, None).release_time(), None);
}

#[test]
fn episode_list_counts() {
    let list = list();
    assert_eq!(list.get_season_numbers(), vec![1, 2]);
    let first = list.get_season_total_episodes(1, NOW);
    assert_eq!(first.get_all_episodes(), 3);
    assert_eq!(first.get_all_watchable_episodes(), 2);
    let second = list.get_season_total_episodes(2, NOW);
    assert_eq!(second.get_all_episodes(), 2);
    assert_eq!(second.get_all_watchable_episodes(), 0);
    assert_eq!(list.get_total_watchable_episodes(NOW), 2);
    assert_eq!(list.get_episodes(2), vec![2, 3]);
    assert_eq!(list.get_next_episode_to_air_and_time(NOW), Some((2, 1893456000)));
    assert_eq!(list.get_next_episode_to_air_and_time(2_000_000_000), None);
}

#[test]
fn seasons_are_built_from_the_episode_list() {
    let mut seasons = Seasons::new(7, "Show".to_string());
    assert_eq!(seasons.view_state(), SeasonsView::Loading);
    assert!(seasons.get_next_episode_and_release_time(NOW).is_none());
    seasons.update(SeasonsMessage::EpisodeListLoaded(list(), NOW));
    assert_eq!(seasons.view_state(), SeasonsView::Seasons);
    assert_eq!(seasons.seasons.len(), 2);
    assert_eq!(seasons.seasons[1].season_number, 2);
    assert_eq!(seasons.seasons[1].index, 1);
    let (next, time) = seasons.get_next_episode_and_release_time(NOW).unwrap();
    assert_eq!(next.season, 2);
    assert_eq!(time, 1893456000);

    seasons.update(SeasonsMessage::Season(0, Message::Expand));
    assert!(seasons.seasons[0].is_expanded);
    assert_eq!(seasons.seasons[0].episodes.len(), 3);
    assert_eq!(seasons.seasons[0].episodes_view(), EpisodesView::Shown);
    assert_eq!(seasons.seasons[1].episodes_view(), EpisodesView::Hidden);
}

#[test]
fn empty_list_has_no_seasons() {
    let mut seasons = Seasons::new(7, "Show".to_string());
    seasons.update(SeasonsMessage::EpisodeListLoaded(EpisodeList { episodes: vec![] }, NOW));
    assert_eq!(seasons.view_state(), SeasonsView::NoSeasons);
}

#[test]
fn season_row_and_tracking() {
    let list = list();
    let mut season = Season::new(0, 7, &list, "Show".to_string(), 1, NOW);
    assert_eq!(season.season_name(), "Season 1");
    assert_eq!(season.episodes_progress(2), "2/3");
    assert!(season.is_checked(2));
    assert!(!season.is_checked(1));
    assert!(!season.is_checked(0));
    match season.update(Message::CheckboxPressed, &list) {
        Action::AddEpisodes { series_id, series_name, season_number, last_episode } => {
            assert_eq!(series_id, 7);
            assert_eq!(series_name, "Show");
            assert_eq!(season_number, 1);
            assert_eq!(last_episode, 3);
        },
        other => panic!("unexpected action {:?}", other),
    }
    match season.update(Message::TrackCommandComplete(AddResult::NothingAdded), &list) {
        Action::RemoveSeason { series_id, season_number } => assert_eq!((series_id, season_number), (7, 1)),
        other => panic!("unexpected action {:?}", other),
    }
    assert!(matches!(season.update(Message::TrackCommandComplete(AddResult::Added), &list), Action::Nothing));
}

#[test]
fn listed_season_rows() {
    let mut season = ViewSeason::new(3, SeasonInfo { number: 2, episode_order: Some(8) }, 42);
    assert_eq!(season.season_name(), "Season 2");
    assert_eq!(season.episodes_progress(), "0/8");
    season.update(ViewMessage::CheckboxPressed(true));
    assert!(season.is_tracked);
    match season.update(ViewMessage::Expand) {
        ViewAction::LoadEpisodes { total_episodes, series_id, season_number } => {
            assert_eq!((total_episodes, series_id, season_number), (8, 42, 2))
        },
        other => panic!("unexpected action {:?}", other),
    }
    let info = EpisodeInfo {
        name: "Pilot".to_string(),
        season: 2,
        number: 1,
        airdate: Some("2021-05-01".to_string()),
        airstamp: "2021-05-01T00:00:00+00:00".to_string(),
        summary: None,
        image_url: Some("https://image".to_string()),
    };
    match season.update(ViewMessage::EpisodesLoaded(vec![info])) {
        ViewAction::LoadImages(images) => assert_eq!(images, vec![Some("https://image".to_string())]),
        other => panic!("unexpected action {:?}", other),
    }
    assert!(season.shows_episodes());
    assert_eq!(season.episodes[0].heading_code(), "S02E01");
    assert_eq!(season.episodes[0].airdate_text(), "2021-05-01");
    assert_eq!(season.episodes[0].summary_text(), "");
    season.update(ViewMessage::EpisodeAction(0, EpisodeMessage::TrackCheckboxPressed(true)));
    assert!(season.episodes[0].is_tracked);
}

#[test]
fn season_without_order_is_not_tracked() {
    let mut season = ViewSeason::new(0, SeasonInfo { number: 1, episode_order: None }, 1);
    season.update(ViewMessage::CheckboxPressed(true));
    assert!(!season.is_tracked);
    assert_eq!(season.episodes_progress(), "0/0");
    assert!(matches!(season.update(ViewMessage::Expand), ViewAction::Nothing));
    let (episode, image) = ViewEpisode::new(EpisodeInfo {
        name: "x".to_string(),
        season: 1,
        number: 12,
        airdate: None,
        airstamp: String::new(),
        summary: Some("s".to_string()),
        image_url: None,
    });
    assert_eq!(image, None);
    assert_eq!(episode.heading_code(), "S01E12");
}

#[test]
fn next_episode_line_of_a_series_page() {
    // 2024-01-01T00:00:00Z
    let now = 1_704_067_200;
    let mut seasons = Seasons::new(7, "Show".to_string());
    assert_eq!(next_episode_line_of(&seasons, now), None);
    let mut special = episode(2, 1, Some("2024-01-01T01:00:00+00:00"));
    special.number = None;
    seasons.update(SeasonsMessage::EpisodeListLoaded(
        EpisodeList {
            episodes: vec![
                episode(1, 1, Some("2023-12-01T00:00:00+00:00")),
                episode(1, 2, Some("2024-01-03T00:00:00+00:00")),
                episode(1, 3, Some("2024-01-10T00:00:00+00:00")),
            ],
        },
        now,
    ));
    assert_eq!(next_episode_line_of(&seasons, now), Some("S01E02 in 2 Days ".to_string()));
    let mut with_special = Seasons::new(8, "Other".to_string());
    with_special.update(SeasonsMessage::EpisodeListLoaded(EpisodeList { episodes: vec![special] }, now));
    assert_eq!(next_episode_line_of(&with_special, now), None);
}
