use series_troxide::series_information::SeriesMainInformation;
use series_troxide::series_page::{PageSwitch, SeriesPageController};
use series_troxide::tabs::{TabId, TabLabel};

fn series(id: u32, name: &str) -> SeriesMainInformation {
    SeriesMainInformation {
        id,
        name: name.to_string(),
        status: "Running".to_string(),
        genres: vec![],
        average_runtime: None,
        language: None,
        premiered: None,
        ended: None,
        summary: None,
        network: None,
        web_channel: None,
        kind: None,
        image: None,
    }
}

#[test]
fn tab_positions_round_trip() {
    for i in 0..5usize {
        let tab = TabId::from_index(i);
        assert_eq!(usize::from(tab), i);
    }
    assert_eq!(TabId::from_index(0), TabId::Discover);
    assert_eq!(TabId::from_index(4), TabId::Settings);
}

#[test]
fn tab_titles() {
    assert_eq!(TabId::Discover.title(), "Discover");
    assert_eq!(TabId::Watchlist.title(), "Watchlist");
    assert_eq!(TabId::MyShows.title(), "My Shows");
    assert_eq!(TabId::Statistics.title(), "Statistics");
    assert_eq!(TabId::Settings.title(), "Settings");
    let label = TabLabel::new("Discover", b"icon");
    assert_eq!(label.text, "Discover");
    assert_eq!(label.icon, b"icon");
}

#[test]
fn opening_pages_stacks_them() {
    let mut controller = SeriesPageController::new();
    assert!(!controller.has_a_series_page());
    assert_eq!(controller.get_series_page_name(), None);
    assert_eq!(controller.try_series_page_switch(series(1, "One")), PageSwitch::Created(1));
    assert_eq!(controller.try_series_page_switch(series(2, "Two")), PageSwitch::Created(2));
    assert!(controller.has_a_series_page());
    assert_eq!(controller.get_series_page_name(), Some("Two"));
    assert_eq!(controller.view().map(|s| s.id), Some(2));
}

#[test]
fn reopening_a_page_moves_it_to_the_front() {
    let mut controller = SeriesPageController::new();
    controller.try_series_page_switch(series(1, "One"));
    controller.try_series_page_switch(series(2, "Two"));
    assert_eq!(controller.try_series_page_switch(series(1, "One again")), PageSwitch::Existing(1));
    // the page keeps what it had
    assert_eq!(controller.get_series_page_name(), Some("One"));
    assert_eq!(controller.go_previous(), Some(2));
    assert_eq!(controller.go_previous(), None);
    assert!(!controller.has_a_series_page());
}

#[test]
fn going_back_undoes_opening_a_new_page() {
    let mut controller = SeriesPageController::new();
    controller.try_series_page_switch(series(5, "Five"));
    controller.try_series_page_switch(series(6, "Six"));
    assert_eq!(controller.go_previous(), Some(5));
    assert_eq!(controller.get_series_page_name(), Some("Five"));
}

#[test]
fn clearing_removes_every_page() {
    let mut controller = SeriesPageController::new();
    controller.try_series_page_switch(series(1, "One"));
    controller.try_series_page_switch(series(2, "Two"));
    controller.clear_all_pages();
    assert!(!controller.has_a_series_page());
    assert_eq!(controller.go_previous(), None);
}
