use series_troxide::series_information::SeriesMainInformation;
use series_troxide::statistics_tab::{
    genre_stats, sort_by_time_descending, time_count, Action, Message, SeriesBanner, SeriesTime, StatisticsTab,
    StatisticsView,
};
use series_troxide::tab_searching::Message as SearcherMessage;

fn series(id: u32, name: &str, genres: &[&str]) -> SeriesMainInformation {
    SeriesMainInformation {
        id,
        name: name.to_string(),
        status: "Running".to_string(),
        genres: genres.iter().map(|g| g.to_string()).collect(),
        average_runtime: None,
        language: None,
        premiered: None,
        ended: None,
        summary: None,
        network: None,
        web_channel: None,
        kind: None,
        image: None,
    }
}

#[test]
fn total_watch_time() {
    let count = time_count(&[Some(90), None, Some(1440)]);
    assert_eq!(count.total_minutes, 1530);
    assert_eq!(count.parts.into_vec(), vec![(1, "Day".to_string()), (1, "Hour".to_string()), (30, "Minutes".to_string())]);
    let nothing = time_count(&[]);
    assert_eq!(nothing.total_minutes, 0);
    assert!(nothing.parts.is_empty());
}

#[test]
fn genres_are_counted_most_frequent_first() {
    let a = series(1, "A", &["Drama", "Crime"]);
    let b = series(2, "B", &["Drama"]);
    let c = series(3, "C", &["Comedy", "Drama", "Crime"]);
    let stats = genre_stats(&[&a, &b, &c]);
    assert_eq!(stats.len(), 3);
    assert_eq!(stats[0], ("Drama".to_string(), 3));
    assert_eq!(stats[1], ("Crime".to_string(), 2));
    assert_eq!(stats[2], ("Comedy".to_string(), 1));
    assert!(genre_stats(&[]).is_empty());
}

#[test]
fn series_ranked_by_watch_time() {
    let sorted = sort_by_time_descending(vec![
        SeriesTime { series: series(1, "A", &[]), time: Some(10) },
        SeriesTime { series: series(2, "B", &[]), time: None },
        SeriesTime { series: series(3, "C", &[]), time: Some(300) },
        SeriesTime { series: series(4, "D", &[]), time: Some(10) },
    ]);
    let order: Vec<u32> = sorted.iter().map(|s| s.series.id).collect();
    assert_eq!(order, vec![3, 1, 4, 2]);
}

#[test]
fn statistics_tab_banners_and_search() {
    let mut tab = StatisticsTab::new();
    assert!(matches!(tab.view_state(), StatisticsView::Empty));
    tab.update(Message::SeriesInfosAndTimeReceived(vec![
        SeriesTime { series: series(1, "Alpha", &[]), time: Some(10) },
        SeriesTime { series: series(2, "Beta", &[]), time: Some(20) },
    ]));
    assert_eq!(tab.series_infos_and_time[0].series.id, 1);
    assert_eq!(tab.series_banners[0].series.id, 2);
    assert_eq!(tab.series_banners[0].title(), "1: Beta");
    assert!(matches!(tab.update(Message::SeriesBannerSelected(1)), Action::OpenSeries(1)));
    tab.update(Message::Searcher(SearcherMessage::SearchTermChanged("alpha".to_string())));
    match tab.view_state() {
        StatisticsView::Banners(shown) => assert_eq!(shown, vec![1]),
        other => panic!("unexpected view {:?}", other),
    }
    tab.update(Message::Searcher(SearcherMessage::SearchTermChanged("qqqq".to_string())));
    assert!(matches!(tab.view_state(), StatisticsView::NoMatches));
}

#[test]
fn banner_time_parts() {
    let banner = SeriesBanner::new(0, series(1, "A", &[]), Some(61));
    assert_eq!(banner.time_parts().unwrap().into_vec(), vec![(1, "Hour".to_string()), (1, "Minute".to_string())]);
    let unknown = SeriesBanner::new(0, series(1, "A", &[]), None);
    assert!(unknown.time_parts().is_none());
}

#[test]
fn banners_watched_as_long_keep_their_order() {
    let mut tab = StatisticsTab::new();
    tab.update(Message::SeriesInfosAndTimeReceived(vec![
        SeriesTime { series: series(1, "A", &[]), time: Some(10) },
        SeriesTime { series: series(2, "B", &[]), time: None },
        SeriesTime { series: series(3, "C", &[]), time: Some(10) },
        SeriesTime { series: series(4, "D", &[]), time: None },
        SeriesTime { series: series(5, "E", &[]), time: Some(60) },
    ]));
    let ids: Vec<u32> = tab.series_banners.iter().map(|b| b.series.id).collect();
    assert_eq!(ids, vec![5, 1, 3, 2, 4]);
    let indices: Vec<usize> = tab.series_banners.iter().map(|b| b.index).collect();
    assert_eq!(indices, vec![0, 1, 2, 3, 4]);
}
